//! Instruction disassemblers: each guest architecture turns raw
//! instruction bytes at a given pc into assembly text and a length.
pub mod riscv;
