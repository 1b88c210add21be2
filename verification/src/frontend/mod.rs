pub mod emit;
pub mod riscv_args;
pub mod riscv_cpu;
pub mod riscv_disas;
pub mod riscv_ext;
pub mod riscv_fpu;
pub mod riscv_trans;

use vstd::prelude::*;

verus! {

/// Why translation of a block stops after an instruction.
#[derive(Debug, Clone, Copy, PartialEq, Eq, Structural)]
pub enum DisasJumpType {
    /// Continue with the next sequential instruction.
    Next,
    /// The block reached its instruction limit.
    TooMany,
    /// An unconditional branch or exit: no fall-through.
    NoReturn,
}

/// Translation state shared by all guest architectures.
#[derive(Debug, Clone, Copy, PartialEq, Eq, Structural)]
pub struct DisasContextBase {
    /// PC of the first instruction of the block.
    pub pc_first: u64,
    /// PC of the next instruction to decode.
    pub pc_next: u64,
    /// How the current instruction ends.
    pub is_jmp: DisasJumpType,
    /// Guest instructions translated so far.
    pub num_insns: u32,
    /// Most instructions allowed in one block.
    pub max_insns: u32,
}

impl DisasContextBase {
    /// The state at the start of a block at `pc` with room for `max_insns`
    /// instructions.
    pub fn new(pc: u64, max_insns: u32) -> (b: Self)
        ensures
            b == (DisasContextBase { pc_first: pc, pc_next: pc, is_jmp: DisasJumpType::Next, num_insns: 0, max_insns }),
    {
        DisasContextBase { pc_first: pc, pc_next: pc, is_jmp: DisasJumpType::Next, num_insns: 0, max_insns }
    }
}

/// The decision the translation loop takes after each instruction: stop
/// when the instruction ended the block; else stop, marking the block as
/// full, once the instruction limit is reached; else go on. Returns whether
/// to stop.
pub fn translator_should_stop(base: &mut DisasContextBase) -> (stop: bool)
    ensures
        stop == (old(base).is_jmp != DisasJumpType::Next || old(base).num_insns >= old(base).max_insns),
        *final(base) == if old(base).is_jmp == DisasJumpType::Next && old(base).num_insns >= old(base).max_insns {
            DisasContextBase { is_jmp: DisasJumpType::TooMany, ..*old(base) }
        } else {
            *old(base)
        },
{
    if base.is_jmp != DisasJumpType::Next {
        return true;
    }
    if base.num_insns >= base.max_insns {
        base.is_jmp = DisasJumpType::TooMany;
        return true;
    }
    false
}

} // verus!
