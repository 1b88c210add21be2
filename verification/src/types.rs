use vstd::prelude::*;

verus! {

/// IR value types: the width of IR operands.
///
/// Integer types (I32/I64/I128) are used for scalar ops; vector types for SIMD.
#[derive(Debug, Clone, Copy, PartialEq, Eq, Hash, Structural)]
pub enum Type {
    I32,
    I64,
    I128,
    V64,
    V128,
    V256,
}

/// Number of IR types.
pub const TYPE_COUNT: usize = 6;

impl Type {
    /// Width of the type in bits.
    pub open spec fn spec_size_bits(self) -> u32 {
        match self {
            Type::I32 => 32,
            Type::I64 => 64,
            Type::I128 => 128,
            Type::V64 => 64,
            Type::V128 => 128,
            Type::V256 => 256,
        }
    }

    /// Position of the type in declaration order (0..TYPE_COUNT).
    pub open spec fn spec_index(self) -> nat {
        match self {
            Type::I32 => 0,
            Type::I64 => 1,
            Type::I128 => 2,
            Type::V64 => 3,
            Type::V128 => 4,
            Type::V256 => 5,
        }
    }

    pub fn index(self) -> (r: usize)
        ensures
            r == self.spec_index(),
            r < TYPE_COUNT,
    {
        match self {
            Type::I32 => 0,
            Type::I64 => 1,
            Type::I128 => 2,
            Type::V64 => 3,
            Type::V128 => 4,
            Type::V256 => 5,
        }
    }

    pub fn size_bits(self) -> (r: u32)
        ensures
            r == self.spec_size_bits(),
    {
        match self {
            Type::I32 => 32,
            Type::I64 => 64,
            Type::I128 => 128,
            Type::V64 => 64,
            Type::V128 => 128,
            Type::V256 => 256,
        }
    }

    pub fn size_bytes(self) -> (r: u32)
        ensures
            r == self.spec_size_bits() / 8,
            r * 8 == self.spec_size_bits(),
    {
        self.size_bits() / 8
    }

    pub open spec fn spec_is_vector(self) -> bool {
        self is V64 || self is V128 || self is V256
    }

    pub open spec fn spec_is_integer(self) -> bool {
        self is I32 || self is I64 || self is I128
    }

    pub fn is_vector(self) -> (r: bool)
        ensures
            r == self.spec_is_vector(),
    {
        match self {
            Type::V64 | Type::V128 | Type::V256 => true,
            _ => false,
        }
    }

    pub fn is_integer(self) -> (r: bool)
        ensures
            r == self.spec_is_integer(),
    {
        match self {
            Type::I32 | Type::I64 | Type::I128 => true,
            _ => false,
        }
    }
}

/// Every type is exactly one of integer and vector.
pub proof fn lemma_type_integer_xor_vector(t: Type)
    ensures
        t.spec_is_integer() != t.spec_is_vector(),
{
}

/// Runtime location of a temporary's value during register allocation.
#[derive(Debug, Clone, Copy, PartialEq, Eq, Hash, Structural)]
pub enum TempVal {
    Dead,
    Reg,
    Mem,
    Const,
}

/// Comparison conditions for branch/setcond operations.
///
/// The numeric encoding (see `to_u32`) follows the QEMU numbering.
#[derive(Debug, Clone, Copy, PartialEq, Eq, Hash, Structural)]
pub enum Cond {
    Never,
    Always,
    Eq,
    Ne,
    Lt,
    Ge,
    Le,
    Gt,
    Ltu,
    Geu,
    Leu,
    Gtu,
    TstEq,
    TstNe,
}

impl Cond {
    pub open spec fn spec_invert(self) -> Cond {
        match self {
            Cond::Never => Cond::Always,
            Cond::Always => Cond::Never,
            Cond::Eq => Cond::Ne,
            Cond::Ne => Cond::Eq,
            Cond::Lt => Cond::Ge,
            Cond::Ge => Cond::Lt,
            Cond::Le => Cond::Gt,
            Cond::Gt => Cond::Le,
            Cond::Ltu => Cond::Geu,
            Cond::Geu => Cond::Ltu,
            Cond::Leu => Cond::Gtu,
            Cond::Gtu => Cond::Leu,
            Cond::TstEq => Cond::TstNe,
            Cond::TstNe => Cond::TstEq,
        }
    }

    pub open spec fn spec_swap(self) -> Cond {
        match self {
            Cond::Lt => Cond::Gt,
            Cond::Ge => Cond::Le,
            Cond::Le => Cond::Ge,
            Cond::Gt => Cond::Lt,
            Cond::Ltu => Cond::Gtu,
            Cond::Geu => Cond::Leu,
            Cond::Leu => Cond::Geu,
            Cond::Gtu => Cond::Ltu,
            _ => self,
        }
    }

    /// The numeric code of the condition.
    pub open spec fn spec_code(self) -> u32 {
        match self {
            Cond::Never => 0,
            Cond::Always => 1,
            Cond::Eq => 8,
            Cond::Ne => 9,
            Cond::Lt => 10,
            Cond::Ge => 11,
            Cond::Le => 12,
            Cond::Gt => 13,
            Cond::Ltu => 14,
            Cond::Geu => 15,
            Cond::Leu => 16,
            Cond::Gtu => 17,
            Cond::TstEq => 18,
            Cond::TstNe => 19,
        }
    }

    /// Whether `v` is the code of some condition.
    pub open spec fn is_code(v: u32) -> bool {
        v == 0 || v == 1 || (8 <= v <= 19)
    }

    /// The condition whose code is `v` (meaningful when `is_code(v)`).
    pub open spec fn spec_from_code(v: u32) -> Cond {
        if v == 0 {
            Cond::Never
        } else if v == 1 {
            Cond::Always
        } else if v == 8 {
            Cond::Eq
        } else if v == 9 {
            Cond::Ne
        } else if v == 10 {
            Cond::Lt
        } else if v == 11 {
            Cond::Ge
        } else if v == 12 {
            Cond::Le
        } else if v == 13 {
            Cond::Gt
        } else if v == 14 {
            Cond::Ltu
        } else if v == 15 {
            Cond::Geu
        } else if v == 16 {
            Cond::Leu
        } else if v == 17 {
            Cond::Gtu
        } else if v == 18 {
            Cond::TstEq
        } else {
            Cond::TstNe
        }
    }

    /// Return the inverted condition.
    pub fn invert(self) -> (r: Cond)
        ensures
            r == self.spec_invert(),
    {
        match self {
            Cond::Never => Cond::Always,
            Cond::Always => Cond::Never,
            Cond::Eq => Cond::Ne,
            Cond::Ne => Cond::Eq,
            Cond::Lt => Cond::Ge,
            Cond::Ge => Cond::Lt,
            Cond::Le => Cond::Gt,
            Cond::Gt => Cond::Le,
            Cond::Ltu => Cond::Geu,
            Cond::Geu => Cond::Ltu,
            Cond::Leu => Cond::Gtu,
            Cond::Gtu => Cond::Leu,
            Cond::TstEq => Cond::TstNe,
            Cond::TstNe => Cond::TstEq,
        }
    }

    /// Swap operand order (e.g. Lt becomes Gt).
    pub fn swap(self) -> (r: Cond)
        ensures
            r == self.spec_swap(),
    {
        match self {
            Cond::Eq | Cond::Ne | Cond::Never | Cond::Always | Cond::TstEq | Cond::TstNe => self,
            Cond::Lt => Cond::Gt,
            Cond::Ge => Cond::Le,
            Cond::Le => Cond::Ge,
            Cond::Gt => Cond::Lt,
            Cond::Ltu => Cond::Gtu,
            Cond::Geu => Cond::Leu,
            Cond::Leu => Cond::Geu,
            Cond::Gtu => Cond::Ltu,
        }
    }

    pub open spec fn spec_is_signed(self) -> bool {
        self is Lt || self is Ge || self is Le || self is Gt
    }

    pub open spec fn spec_is_unsigned(self) -> bool {
        self is Ltu || self is Geu || self is Leu || self is Gtu
    }

    pub open spec fn spec_is_tst(self) -> bool {
        self is TstEq || self is TstNe
    }

    pub fn is_signed(self) -> (r: bool)
        ensures
            r == self.spec_is_signed(),
    {
        match self {
            Cond::Lt | Cond::Ge | Cond::Le | Cond::Gt => true,
            _ => false,
        }
    }

    pub fn is_unsigned(self) -> (r: bool)
        ensures
            r == self.spec_is_unsigned(),
    {
        match self {
            Cond::Ltu | Cond::Geu | Cond::Leu | Cond::Gtu => true,
            _ => false,
        }
    }

    pub fn is_tst(self) -> (r: bool)
        ensures
            r == self.spec_is_tst(),
    {
        match self {
            Cond::TstEq | Cond::TstNe => true,
            _ => false,
        }
    }

    /// The numeric code of the condition.
    pub fn to_u32(self) -> (r: u32)
        ensures
            r == self.spec_code(),
            Cond::is_code(r),
    {
        match self {
            Cond::Never => 0,
            Cond::Always => 1,
            Cond::Eq => 8,
            Cond::Ne => 9,
            Cond::Lt => 10,
            Cond::Ge => 11,
            Cond::Le => 12,
            Cond::Gt => 13,
            Cond::Ltu => 14,
            Cond::Geu => 15,
            Cond::Leu => 16,
            Cond::Gtu => 17,
            Cond::TstEq => 18,
            Cond::TstNe => 19,
        }
    }

    /// Decode a condition code; `None` for a value that is no code.
    pub fn from_u32(v: u32) -> (r: Option<Cond>)
        ensures
            r is Some <==> Cond::is_code(v),
            r is Some ==> r->0 == Cond::spec_from_code(v) && r->0.spec_code() == v,
    {
        match v {
            0 => Some(Cond::Never),
            1 => Some(Cond::Always),
            8 => Some(Cond::Eq),
            9 => Some(Cond::Ne),
            10 => Some(Cond::Lt),
            11 => Some(Cond::Ge),
            12 => Some(Cond::Le),
            13 => Some(Cond::Gt),
            14 => Some(Cond::Ltu),
            15 => Some(Cond::Geu),
            16 => Some(Cond::Leu),
            17 => Some(Cond::Gtu),
            18 => Some(Cond::TstEq),
            19 => Some(Cond::TstNe),
            _ => None,
        }
    }
}

/// Inverting a condition twice gives it back.
pub proof fn lemma_cond_invert_involution(c: Cond)
    ensures
        c.spec_invert().spec_invert() == c,
        c.spec_invert() != c,
{
}

/// Swapping operands twice gives the condition back; swapping keeps the
/// signedness class.
pub proof fn lemma_cond_swap_involution(c: Cond)
    ensures
        c.spec_swap().spec_swap() == c,
        c.spec_swap().spec_is_signed() == c.spec_is_signed(),
        c.spec_swap().spec_is_unsigned() == c.spec_is_unsigned(),
        c.spec_swap().spec_is_tst() == c.spec_is_tst(),
{
}

/// Decoding the code of a condition gives the condition back.
pub proof fn lemma_cond_code_roundtrip(c: Cond)
    ensures
        Cond::is_code(c.spec_code()),
        Cond::spec_from_code(c.spec_code()) == c,
{
}

/// Memory operation descriptor: size, signedness, byte swap, alignment.
#[derive(Debug, Clone, Copy, PartialEq, Eq, Hash, Structural)]
pub struct MemOp(pub u16);

impl MemOp {
    pub const SIZE_8: u16 = 0;
    pub const SIZE_16: u16 = 1;
    pub const SIZE_32: u16 = 2;
    pub const SIZE_64: u16 = 3;
    pub const SIGN: u16 = 4;
    pub const BSWAP: u16 = 8;
    pub const ALIGN_2: u16 = 0x10;
    pub const ALIGN_4: u16 = 0x20;
    pub const ALIGN_8: u16 = 0x30;
    pub const ALIGN_16: u16 = 0x40;
    pub const ALIGN_32: u16 = 0x50;
    pub const ALIGN_64: u16 = 0x60;

    pub fn new(bits: u16) -> (r: Self)
        ensures
            r.0 == bits,
    {
        MemOp(bits)
    }

    pub fn ub() -> (r: Self)
        ensures
            r.0 == 0,
    {
        MemOp(0)
    }

    pub fn sb() -> (r: Self)
        ensures
            r.0 == 4,
    {
        MemOp(4)
    }

    pub fn uw() -> (r: Self)
        ensures
            r.0 == 1,
    {
        MemOp(1)
    }

    pub fn sw() -> (r: Self)
        ensures
            r.0 == 5,
    {
        MemOp(5)
    }

    pub fn ul() -> (r: Self)
        ensures
            r.0 == 2,
    {
        MemOp(2)
    }

    pub fn sl() -> (r: Self)
        ensures
            r.0 == 6,
    {
        MemOp(6)
    }

    pub fn uq() -> (r: Self)
        ensures
            r.0 == 3,
    {
        MemOp(3)
    }

    pub fn bits(self) -> (r: u16)
        ensures
            r == self.0,
    {
        self.0
    }

    pub open spec fn spec_size(self) -> u16 {
        self.0 & 3
    }

    pub open spec fn spec_is_signed(self) -> bool {
        self.0 & 4 != 0
    }

    pub open spec fn spec_is_bswap(self) -> bool {
        self.0 & 8 != 0
    }

    /// log2 of the access size in bytes.
    pub fn size(self) -> (r: u16)
        ensures
            r == self.spec_size(),
            r < 4,
    {
        let b = self.0;
        assert(b & 3 < 4) by (bit_vector);
        b & 3
    }

    pub fn is_signed(self) -> (r: bool)
        ensures
            r == self.spec_is_signed(),
    {
        self.0 & 4 != 0
    }

    pub fn is_bswap(self) -> (r: bool)
        ensures
            r == self.spec_is_bswap(),
    {
        self.0 & 8 != 0
    }

    /// Access size in bytes: 1, 2, 4 or 8.
    pub fn size_bytes(self) -> (r: u32)
        ensures
            self.spec_size() == 0 ==> r == 1,
            self.spec_size() == 1 ==> r == 2,
            self.spec_size() == 2 ==> r == 4,
            self.spec_size() == 3 ==> r == 8,
    {
        let s = self.size();
        if s == 0 {
            1
        } else if s == 1 {
            2
        } else if s == 2 {
            4
        } else {
            8
        }
    }
}

/// Bitmap of host registers (up to 64).
#[derive(Debug, Clone, Copy, PartialEq, Eq, Hash, Structural)]
pub struct RegSet(pub u64);

/// Whether bit `r` of `x` is set.
pub open spec fn bit_set(x: u64, r: u64) -> bool {
    (x >> r) & 1 == 1
}

/// Number of set bits of `x`.
pub open spec fn popcount(x: u64) -> nat
    decreases x,
{
    if x == 0 {
        0
    } else {
        proof {
            lemma_shr1(x);
        }
        ((x & 1) as nat) + popcount(x >> 1)
    }
}

impl RegSet {
    /// Whether register `r` is a member of the set.
    pub open spec fn has(self, r: u64) -> bool {
        r < 64 && bit_set(self.0, r)
    }

    pub fn new() -> (r: Self)
        ensures
            r.0 == 0,
    {
        RegSet(0)
    }

    pub fn from_raw(bits: u64) -> (r: Self)
        ensures
            r.0 == bits,
    {
        RegSet(bits)
    }

    pub fn raw(self) -> (r: u64)
        ensures
            r == self.0,
    {
        self.0
    }

    /// Add register `reg`.
    pub fn set(self, reg: u8) -> (r: Self)
        requires
            reg < 64,
        ensures
            r.0 == self.0 | (1u64 << reg),
            forall|j: u64| #[trigger] r.has(j) <==> (j == reg || self.has(j)),
    {
        let r = RegSet(self.0 | (1u64 << reg));
        proof {
            let x = self.0;
            let rr = reg as u64;
            assert forall|j: u64| #[trigger] r.has(j) <==> (j == reg || self.has(j)) by {
                assert(j < 64 && rr < 64 ==> (((x | (1u64 << rr)) >> j) & 1 == 1 <==> (j == rr || (x
                    >> j) & 1 == 1))) by (bit_vector);
            }
        }
        r
    }

    /// Remove register `reg`.
    pub fn clear(self, reg: u8) -> (r: Self)
        requires
            reg < 64,
        ensures
            r.0 == self.0 & !(1u64 << reg),
            forall|j: u64| #[trigger] r.has(j) <==> (j != reg && self.has(j)),
    {
        let r = RegSet(self.0 & !(1u64 << reg));
        proof {
            let x = self.0;
            let rr = reg as u64;
            assert forall|j: u64| #[trigger] r.has(j) <==> (j != reg && self.has(j)) by {
                assert(j < 64 && rr < 64 ==> (((x & !(1u64 << rr)) >> j) & 1 == 1 <==> (j != rr && (x
                    >> j) & 1 == 1))) by (bit_vector);
            }
        }
        r
    }

    pub fn contains(self, reg: u8) -> (r: bool)
        requires
            reg < 64,
        ensures
            r == self.has(reg as u64),
    {
        let x = self.0;
        let rr = reg as u64;
        assert(rr < 64 ==> ((x & (1u64 << rr) != 0) <==> ((x >> rr) & 1 == 1))) by (bit_vector);
        self.0 & (1u64 << reg) != 0
    }

    pub fn is_empty(self) -> (r: bool)
        ensures
            r == (self.0 == 0),
            r <==> forall|j: u64| !#[trigger] self.has(j),
    {
        proof {
            let x = self.0;
            if x != 0 {
                vstd::std_specs::bits::axiom_u64_trailing_zeros(x);
                let kk = vstd::std_specs::bits::u64_trailing_zeros(x) as u64;
                assert(self.has(kk));
            } else {
                lemma_regset_empty();
            }
        }
        self.0 == 0
    }

    pub fn union(self, other: RegSet) -> (r: Self)
        ensures
            r.0 == self.0 | other.0,
            forall|j: u64| #[trigger] r.has(j) <==> (self.has(j) || other.has(j)),
    {
        let r = RegSet(self.0 | other.0);
        proof {
            let x = self.0;
            let y = other.0;
            assert forall|j: u64| #[trigger] r.has(j) <==> (self.has(j) || other.has(j)) by {
                assert((((x | y) >> j) & 1 == 1) <==> ((x >> j) & 1 == 1 || (y >> j) & 1 == 1))
                    by (bit_vector);
            }
        }
        r
    }

    pub fn intersect(self, other: RegSet) -> (r: Self)
        ensures
            r.0 == self.0 & other.0,
            forall|j: u64| #[trigger] r.has(j) <==> (self.has(j) && other.has(j)),
    {
        let r = RegSet(self.0 & other.0);
        proof {
            let x = self.0;
            let y = other.0;
            assert forall|j: u64| #[trigger] r.has(j) <==> (self.has(j) && other.has(j)) by {
                assert((((x & y) >> j) & 1 == 1) <==> ((x >> j) & 1 == 1 && (y >> j) & 1 == 1))
                    by (bit_vector);
            }
        }
        r
    }

    pub fn subtract(self, other: RegSet) -> (r: Self)
        ensures
            r.0 == self.0 & !other.0,
            forall|j: u64| #[trigger] r.has(j) <==> (self.has(j) && !other.has(j)),
    {
        let r = RegSet(self.0 & !other.0);
        proof {
            let x = self.0;
            let y = other.0;
            assert forall|j: u64| #[trigger] r.has(j) <==> (self.has(j) && !other.has(j)) by {
                assert((((x & !y) >> j) & 1 == 1) <==> ((x >> j) & 1 == 1 && !((y >> j) & 1 == 1)))
                    by (bit_vector);
            }
        }
        r
    }

    /// Number of registers in the set.
    pub fn count(self) -> (r: u32)
        ensures
            r == popcount(self.0),
    {
        let mut x: u64 = self.0;
        let mut n: u32 = 0;
        proof {
            lemma_popcount_bound(self.0);
        }
        while x != 0
            invariant
                n + popcount(x) == popcount(self.0),
                popcount(self.0) <= 64,
            decreases x,
        {
            proof {
                lemma_shr1(x);
            }
            n = n + (x & 1) as u32;
            x = x >> 1;
        }
        n
    }

    /// The lowest register in the set, or `None` for the empty set.
    pub fn first(self) -> (r: Option<u8>)
        ensures
            r is None <==> self.0 == 0,
            r matches Some(k) ==> k < 64 && self.has(k as u64) && forall|j: u64|
                j < k ==> !#[trigger] self.has(j),
    {
        if self.0 == 0 {
            None
        } else {
            let k = self.0.trailing_zeros();
            proof {
                vstd::std_specs::bits::axiom_u64_trailing_zeros(self.0);
            }
            Some(k as u8)
        }
    }
}

/// Shifting a nonzero value right by one makes it smaller; its low bit is
/// 0 or 1.
pub proof fn lemma_shr1(x: u64)
    ensures
        x != 0 ==> x >> 1 < x,
        (x & 1) <= 1,
{
    assert(x != 0 ==> x >> 1 < x) by (bit_vector);
    assert((x & 1) <= 1) by (bit_vector);
}

/// The empty register set has no member.
pub proof fn lemma_regset_empty()
    ensures
        forall|j: u64| !#[trigger] RegSet(0).has(j),
{
    assert forall|j: u64| !#[trigger] RegSet(0).has(j) by {
        assert((0u64 >> j) & 1 == 0) by (bit_vector);
    }
}

/// A set of 64 bits has at most 64 members.
pub proof fn lemma_popcount_bound(x: u64)
    ensures
        popcount(x) <= 64,
{
    lemma_popcount_shift_bound(x, 64);
}

proof fn lemma_popcount_shift_bound(x: u64, k: u64)
    requires
        k <= 64,
        k < 64 ==> x >> k == 0,
    ensures
        popcount(x) <= k,
    decreases k,
{
    if x == 0 {
    } else {
        if k == 0 {
            assert(x >> 0u64 == x) by (bit_vector);
        }
        let kk = (k - 1) as u64;
        lemma_shr1(x);
        if k == 64 {
            assert((x >> 1) >> 63u64 == 0) by (bit_vector);
        } else {
            assert(1 <= k && k < 64 && x >> k == 0 ==> (x >> 1) >> ((k - 1) as u64) == 0) by (bit_vector);
        }
        lemma_popcount_shift_bound(x >> 1, kk);
    }
}

/// Adding a register to a set and taking it away again gives a set without it;
/// a register that was added is a member.
pub proof fn lemma_regset_set_clear(s: RegSet, r: u64)
    requires
        r < 64,
    ensures
        RegSet(s.0 | (1u64 << r)).has(r),
        !RegSet((s.0 | (1u64 << r)) & !(1u64 << r)).has(r),
        forall|j: u64| j != r ==> (#[trigger] RegSet((s.0 | (1u64 << r)) & !(1u64 << r)).has(j) <==> s.has(j)),
{
    let x = s.0;
    assert(r < 64 ==> ((x | (1u64 << r)) >> r) & 1 == 1) by (bit_vector);
    assert(r < 64 ==> (((x | (1u64 << r)) & !(1u64 << r)) >> r) & 1 != 1) by (bit_vector);
    assert forall|j: u64| j != r implies (#[trigger] RegSet((s.0 | (1u64 << r)) & !(1u64 << r)).has(j) <==> s.has(j)) by {
        assert(j != r && r < 64 ==> ((((x | (1u64 << r)) & !(1u64 << r)) >> j) & 1 == 1 <==> (x >> j) & 1 == 1)) by (bit_vector);
    }
}

} // verus!
