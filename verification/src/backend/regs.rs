use vstd::prelude::*;

use crate::types::RegSet;

verus! {

/// x86-64 general-purpose registers, in ModR/M and REX numbering order.
#[derive(Debug, Clone, Copy, PartialEq, Eq, Hash, Structural)]
pub enum Reg {
    Rax,
    Rcx,
    Rdx,
    Rbx,
    Rsp,
    Rbp,
    Rsi,
    Rdi,
    R8,
    R9,
    R10,
    R11,
    R12,
    R13,
    R14,
    R15,
}

impl Reg {
    /// The register number (0..16).
    pub open spec fn spec_num(self) -> u8 {
        match self {
            Reg::Rax => 0,
            Reg::Rcx => 1,
            Reg::Rdx => 2,
            Reg::Rbx => 3,
            Reg::Rsp => 4,
            Reg::Rbp => 5,
            Reg::Rsi => 6,
            Reg::Rdi => 7,
            Reg::R8 => 8,
            Reg::R9 => 9,
            Reg::R10 => 10,
            Reg::R11 => 11,
            Reg::R12 => 12,
            Reg::R13 => 13,
            Reg::R14 => 14,
            Reg::R15 => 15,
        }
    }

    /// The register with number `n` (meaningful for `n < 16`).
    pub open spec fn spec_from_num(n: u8) -> Reg {
        if n == 0 {
            Reg::Rax
        } else if n == 1 {
            Reg::Rcx
        } else if n == 2 {
            Reg::Rdx
        } else if n == 3 {
            Reg::Rbx
        } else if n == 4 {
            Reg::Rsp
        } else if n == 5 {
            Reg::Rbp
        } else if n == 6 {
            Reg::Rsi
        } else if n == 7 {
            Reg::Rdi
        } else if n == 8 {
            Reg::R8
        } else if n == 9 {
            Reg::R9
        } else if n == 10 {
            Reg::R10
        } else if n == 11 {
            Reg::R11
        } else if n == 12 {
            Reg::R12
        } else if n == 13 {
            Reg::R13
        } else if n == 14 {
            Reg::R14
        } else {
            Reg::R15
        }
    }

    pub open spec fn spec_low3(self) -> u8 {
        self.spec_num() & 7
    }

    pub fn num(self) -> (r: u8)
        ensures
            r == self.spec_num(),
            r < 16,
    {
        match self {
            Reg::Rax => 0,
            Reg::Rcx => 1,
            Reg::Rdx => 2,
            Reg::Rbx => 3,
            Reg::Rsp => 4,
            Reg::Rbp => 5,
            Reg::Rsi => 6,
            Reg::Rdi => 7,
            Reg::R8 => 8,
            Reg::R9 => 9,
            Reg::R10 => 10,
            Reg::R11 => 11,
            Reg::R12 => 12,
            Reg::R13 => 13,
            Reg::R14 => 14,
            Reg::R15 => 15,
        }
    }

    /// The register with number `n`.
    pub fn from_u8(n: u8) -> (r: Reg)
        requires
            n < 16,
        ensures
            r == Reg::spec_from_num(n),
            r.spec_num() == n,
    {
        match n {
            0 => Reg::Rax,
            1 => Reg::Rcx,
            2 => Reg::Rdx,
            3 => Reg::Rbx,
            4 => Reg::Rsp,
            5 => Reg::Rbp,
            6 => Reg::Rsi,
            7 => Reg::Rdi,
            8 => Reg::R8,
            9 => Reg::R9,
            10 => Reg::R10,
            11 => Reg::R11,
            12 => Reg::R12,
            13 => Reg::R13,
            14 => Reg::R14,
            _ => Reg::R15,
        }
    }

    /// Low 3 bits of the register number (for ModR/M).
    pub fn low3(self) -> (r: u8)
        ensures
            r == self.spec_low3(),
            r < 8,
            r == self.spec_num() % 8,
    {
        let n = self.num();
        assert(n < 16 ==> n & 7 == n % 8 && n & 7 < 8) by (bit_vector);
        n & 7
    }

    /// Whether this register needs a REX prefix bit (R8-R15).
    pub fn needs_rex(self) -> (r: bool)
        ensures
            r == (self.spec_num() >= 8),
    {
        self.num() >= 8
    }
}

/// Register numbers and registers correspond one to one.
pub proof fn lemma_reg_num_roundtrip(r: Reg)
    ensures
        r.spec_num() < 16,
        Reg::spec_from_num(r.spec_num()) == r,
{
}

/// The env pointer register (RBP), kept across all generated code.
pub fn tcg_areg0() -> (r: Reg)
    ensures
        r == Reg::Rbp,
{
    Reg::Rbp
}

/// The register that holds the guest memory base in generated code.
pub fn guest_base_reg() -> (r: Reg)
    ensures
        r == Reg::R14,
{
    Reg::R14
}

/// The callee-saved registers that the prologue saves, in push order
/// (System V ABI).
pub open spec fn spec_callee_saved() -> Seq<Reg> {
    seq![Reg::Rbp, Reg::Rbx, Reg::R12, Reg::R13, Reg::R14, Reg::R15]
}

pub fn callee_saved() -> (r: [Reg; 6])
    ensures
        r@ == spec_callee_saved(),
{
    let r = [Reg::Rbp, Reg::Rbx, Reg::R12, Reg::R13, Reg::R14, Reg::R15];
    assert(r@ =~= spec_callee_saved());
    r
}

/// The function argument registers (System V AMD64 ABI).
pub open spec fn spec_call_arg_regs() -> Seq<Reg> {
    seq![Reg::Rdi, Reg::Rsi, Reg::Rdx, Reg::Rcx, Reg::R8, Reg::R9]
}

pub fn call_arg_regs() -> (r: [Reg; 6])
    ensures
        r@ == spec_call_arg_regs(),
{
    let r = [Reg::Rdi, Reg::Rsi, Reg::Rdx, Reg::Rcx, Reg::R8, Reg::R9];
    assert(r@ =~= spec_call_arg_regs());
    r
}

/// Registers reserved by the backend: RSP (stack) and RBP (env pointer).
pub fn reserved_regs() -> (r: RegSet)
    ensures
        r.0 == 0x30,
{
    RegSet(0x30)
}

/// Registers the allocator may hand out: all but RSP, RBP and R14 (guest base).
pub fn allocatable_regs() -> (r: RegSet)
    ensures
        r.0 == 0xBFCF,
{
    RegSet(0xBFCF)
}

/// Stack alignment.
pub const STACK_ALIGN: usize = 16;
/// Space reserved for outgoing call arguments on the stack.
pub const STATIC_CALL_ARGS_SIZE: usize = 128;
/// Number of longs in the CPU temp buffer (for spilling).
pub const CPU_TEMP_BUF_NLONGS: usize = 128;
/// Return address plus the callee-saved pushes, in bytes.
pub const PUSH_SIZE: usize = 56;
/// Total frame size (16-byte aligned).
pub const FRAME_SIZE: usize = 1216;
/// Stack adjustment after the pushes.
pub const STACK_ADDEND: usize = 1160;
/// Offset of the guest memory base in the CPU state.
pub const GUEST_BASE_OFFSET: i32 = 520;

/// The frame constants agree: the pushes cover the return address and each
/// callee-saved register, the frame is the aligned total of pushes, call
/// argument space and spill buffer, and the stack addend is the rest.
pub proof fn lemma_frame_layout()
    ensures
        PUSH_SIZE == (1 + spec_callee_saved().len()) * 8,
        FRAME_SIZE % STACK_ALIGN == 0,
        FRAME_SIZE >= PUSH_SIZE + STATIC_CALL_ARGS_SIZE + CPU_TEMP_BUF_NLONGS * 8,
        FRAME_SIZE < PUSH_SIZE + STATIC_CALL_ARGS_SIZE + CPU_TEMP_BUF_NLONGS * 8 + STACK_ALIGN,
        PUSH_SIZE + STACK_ADDEND == FRAME_SIZE,
{
}

/// The allocatable registers are exactly the sixteen registers but the
/// reserved ones (RSP, RBP) and the guest base (R14); no register numbered 16
/// or more is in either set.
pub proof fn lemma_allocatable_regs(n: u64)
    ensures
        n < 16 ==> (RegSet(0xBFCF).has(n) <==> (n != 4 && n != 5 && n != 14)),
        n < 16 ==> (RegSet(0x30).has(n) <==> (n == 4 || n == 5)),
        RegSet(0xBFCF).has(n) ==> n < 16,
        RegSet(0x30).has(n) ==> n < 16,
{
    let a: u64 = 0xBFCF;
    let b: u64 = 0x30;
    assert(n < 64 ==> (n < 16 ==> (((a >> n) & 1 == 1) <==> (n != 4 && n != 5 && n != 14))) && (n >= 16 ==> (a >> n) & 1 == 0)) by (bit_vector)
        requires a == 0xBFCF;
    assert(n < 64 ==> (n < 16 ==> (((b >> n) & 1 == 1) <==> (n == 4 || n == 5))) && (n >= 16 ==> (b >> n) & 1 == 0)) by (bit_vector)
        requires b == 0x30;
    assert(RegSet(0xBFCF).0 == a);
    assert(RegSet(0x30).0 == b);
}

} // verus!
