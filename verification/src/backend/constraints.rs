use vstd::prelude::*;

use crate::backend::constraint::{
    n1_i2, o0_i1, o0_i2, o1_i1, o1_i1_alias, o1_i2, o1_i2_alias, o1_i2_alias_fixed, o1_i4_alias2,
    o2_i2_fixed, o2_i3_fixed, padded, spec_fixed, spec_ialias, spec_newreg, spec_oalias, spec_r,
    ArgConstraint, OpConstraint,
};
use crate::opcode::Opcode;
use crate::types::RegSet;

verus! {

/// Any allocatable register: all but RSP, RBP and R14.
pub open spec fn regs_any() -> RegSet {
    RegSet(0xBFCF)
}

/// Any allocatable register but RCX (the shift count register).
pub open spec fn regs_no_rcx() -> RegSet {
    RegSet(0xBFCD)
}

/// Any allocatable register but RAX and RDX (the double-width pair).
pub open spec fn regs_no_rax_rdx() -> RegSet {
    RegSet(0xBFCA)
}

/// The register constraint of each opcode on x86-64.
pub open spec fn spec_op_constraint(opc: Opcode) -> Seq<ArgConstraint> {
    let rr = regs_any();
    match opc {
        Opcode::Add | Opcode::AndC => padded(seq![spec_r(rr), spec_r(rr), spec_r(rr)]),
        Opcode::Sub | Opcode::Mul | Opcode::And | Opcode::Or | Opcode::Xor | Opcode::AddCO
        | Opcode::AddCI | Opcode::AddCIO | Opcode::AddC1O | Opcode::SubBO | Opcode::SubBI
        | Opcode::SubBIO | Opcode::SubB1O | Opcode::Deposit | Opcode::Extract2 => padded(
            seq![spec_oalias(rr, 0), spec_ialias(rr, 0), spec_r(rr)],
        ),
        Opcode::Neg | Opcode::Not | Opcode::Bswap16 | Opcode::Bswap32 | Opcode::Bswap64
        | Opcode::ExtrhI64I32 => padded(seq![spec_oalias(rr, 0), spec_ialias(rr, 0)]),
        Opcode::Shl | Opcode::Shr | Opcode::Sar | Opcode::RotL | Opcode::RotR => padded(
            seq![spec_oalias(regs_no_rcx(), 0), spec_ialias(regs_no_rcx(), 0), spec_fixed(1)],
        ),
        Opcode::SetCond | Opcode::NegSetCond | Opcode::Clz | Opcode::Ctz => padded(
            seq![spec_newreg(rr), spec_r(rr), spec_r(rr)],
        ),
        Opcode::MovCond => padded(
            seq![spec_oalias(rr, 2), spec_r(rr), spec_r(rr), spec_ialias(rr, 0), spec_r(rr)],
        ),
        Opcode::BrCond | Opcode::St | Opcode::St8 | Opcode::St16 | Opcode::St32 | Opcode::QemuSt => padded(
            seq![spec_r(rr), spec_r(rr)],
        ),
        Opcode::MulS2 | Opcode::MulU2 => padded(
            seq![
                spec_oalias(RegSet(1u64 << 0u8), 0),
                spec_fixed(2),
                spec_ialias(RegSet(1u64 << 0u8), 0),
                spec_r(regs_no_rax_rdx()),
            ],
        ),
        Opcode::DivS2 | Opcode::DivU2 => padded(
            seq![
                spec_oalias(RegSet(1u64 << 0u8), 0),
                spec_oalias(RegSet(1u64 << 2u8), 1),
                spec_ialias(RegSet(1u64 << 0u8), 0),
                spec_ialias(RegSet(1u64 << 2u8), 1),
                spec_r(regs_no_rax_rdx()),
            ],
        ),
        Opcode::Extract | Opcode::SExtract | Opcode::CtPop | Opcode::Ld | Opcode::Ld8U | Opcode::Ld8S
        | Opcode::Ld16U | Opcode::Ld16S | Opcode::Ld32U | Opcode::Ld32S | Opcode::ExtI32I64
        | Opcode::ExtUI32I64 | Opcode::ExtrlI64I32 | Opcode::QemuLd => padded(seq![spec_r(rr), spec_r(rr)]),
        Opcode::GotoPtr => padded(seq![spec_r(rr)]),
        _ => padded(Seq::empty()),
    }
}

/// The register constraint of an opcode on x86-64: which registers each
/// argument may be given, which outputs reuse an input's register, and
/// which outputs must stay apart from the inputs.
pub fn op_constraint(opc: Opcode) -> (c: OpConstraint)
    ensures
        c.args@ == spec_op_constraint(opc),
{
    let rr = RegSet(0xBFCF);
    match opc {
        Opcode::Add | Opcode::AndC => o1_i2(rr, rr, rr),
        Opcode::Sub | Opcode::Mul | Opcode::And | Opcode::Or | Opcode::Xor | Opcode::AddCO
        | Opcode::AddCI | Opcode::AddCIO | Opcode::AddC1O | Opcode::SubBO | Opcode::SubBI
        | Opcode::SubBIO | Opcode::SubB1O | Opcode::Deposit | Opcode::Extract2 => o1_i2_alias(rr, rr, rr),
        Opcode::Neg | Opcode::Not | Opcode::Bswap16 | Opcode::Bswap32 | Opcode::Bswap64
        | Opcode::ExtrhI64I32 => o1_i1_alias(rr, rr),
        Opcode::Shl | Opcode::Shr | Opcode::Sar | Opcode::RotL | Opcode::RotR => {
            let no_rcx = RegSet(0xBFCD);
            o1_i2_alias_fixed(no_rcx, no_rcx, 1)
        },
        Opcode::SetCond | Opcode::NegSetCond | Opcode::Clz | Opcode::Ctz => n1_i2(rr, rr, rr),
        Opcode::MovCond => o1_i4_alias2(rr, rr, rr, rr, rr),
        Opcode::BrCond | Opcode::St | Opcode::St8 | Opcode::St16 | Opcode::St32 | Opcode::QemuSt => o0_i2(
            rr,
            rr,
        ),
        Opcode::MulS2 | Opcode::MulU2 => o2_i2_fixed(0, 2, RegSet(0xBFCA)),
        Opcode::DivS2 | Opcode::DivU2 => o2_i3_fixed(0, 2, RegSet(0xBFCA)),
        Opcode::Extract | Opcode::SExtract | Opcode::CtPop | Opcode::Ld | Opcode::Ld8U | Opcode::Ld8S
        | Opcode::Ld16U | Opcode::Ld16S | Opcode::Ld32U | Opcode::Ld32S | Opcode::ExtI32I64
        | Opcode::ExtUI32I64 | Opcode::ExtrlI64I32 | Opcode::QemuLd => o1_i1(rr, rr),
        Opcode::GotoPtr => o0_i1(rr),
        _ => OpConstraint::empty(),
    }
}

/// The registers that x86 instructions fix: shifts and rotates take their
/// count in CL, so the count input admits RCX (register 1) alone and the
/// shifted value, whose output shares the input's register, admits any
/// allocatable register but RCX; the double-width multiply and divide work
/// on RAX:RDX, so their low output and input are RAX (register 0), their
/// high output RDX (register 2), and the other operand is neither.
pub proof fn law_fixed_registers(opc: Opcode)
    ensures
        opc is Shl || opc is Shr || opc is Sar || opc is RotL || opc is RotR ==> {
            &&& forall|r: u64| #[trigger] spec_op_constraint(opc)[2].regs.has(r) <==> r == 1
            &&& !spec_op_constraint(opc)[0].regs.has(1) && !spec_op_constraint(opc)[1].regs.has(1)
            &&& spec_op_constraint(opc)[0].oalias && spec_op_constraint(opc)[0].alias_index == 0
            &&& spec_op_constraint(opc)[1].ialias
        },
        opc is MulS2 || opc is MulU2 ==> {
            &&& forall|r: u64| #[trigger] spec_op_constraint(opc)[0].regs.has(r) <==> r == 0
            &&& forall|r: u64| #[trigger] spec_op_constraint(opc)[1].regs.has(r) <==> r == 2
            &&& spec_op_constraint(opc)[0].oalias && spec_op_constraint(opc)[0].alias_index == 0
            &&& !spec_op_constraint(opc)[3].regs.has(0) && !spec_op_constraint(opc)[3].regs.has(2)
        },
        opc is DivS2 || opc is DivU2 ==> {
            &&& forall|r: u64| #[trigger] spec_op_constraint(opc)[0].regs.has(r) <==> r == 0
            &&& forall|r: u64| #[trigger] spec_op_constraint(opc)[1].regs.has(r) <==> r == 2
            &&& spec_op_constraint(opc)[0].oalias && spec_op_constraint(opc)[0].alias_index == 0
            &&& spec_op_constraint(opc)[1].oalias && spec_op_constraint(opc)[1].alias_index == 1
            &&& !spec_op_constraint(opc)[4].regs.has(0) && !spec_op_constraint(opc)[4].regs.has(2)
        },
{
    crate::backend::fold::lemma_shift_bits();
}

} // verus!
