use vstd::prelude::*;

use crate::backend::code_buffer::{le32, write_at, CodeBuffer};
use crate::backend::emitter::{
    enc_andn, enc_arith_ri, enc_arith_rr, enc_bswap, enc_call_reg, enc_cmovcc, enc_div, enc_idiv,
    enc_imul1, enc_imul_rr, enc_jcc, enc_jmp, enc_jmp_reg, enc_lea_sib, enc_load, enc_load_sib,
    enc_load_sx, enc_load_sx_sib, enc_load_zx, enc_load_zx_sib, enc_lzcnt, enc_mov_ri, enc_mov_rr,
    enc_movsx, enc_movzx, enc_mul, enc_neg, enc_not, enc_pop, enc_popcnt, enc_push, enc_rolw_8,
    enc_setcc, enc_shift_cl, enc_shift_ri, enc_shrd_ri, enc_store, enc_store_byte,
    enc_store_byte_sib, enc_store_sib, enc_store_word, enc_store_word_sib, enc_test_rr, enc_tzcnt,
    lemma_disp32, lemma_nop_seq_len, nop_seq, put_andn, put_arith_ri, put_arith_rr, put_bswap, put_call_reg,
    put_cmovcc, put_div, put_idiv, put_imul1, put_imul_rr, put_jcc, put_jmp, put_jmp_reg,
    put_lea_sib, put_load, put_load_sib, put_load_sx, put_load_sx_sib, put_load_zx,
    put_load_zx_sib, put_lzcnt, put_mov_ri, put_mov_rr, put_movsx, put_movzx, put_mul, put_neg,
    put_nops, put_not, put_pop, put_popcnt, put_push, put_ret, put_rolw_8, put_setcc,
    put_shift_cl, put_shift_ri, put_shrd_ri, put_stc, put_store, put_store_byte,
    put_store_byte_sib, put_store_sib, put_store_word, put_store_word_sib, put_test_rr,
    put_tzcnt, ArithOp, ShiftOp, X86Cond, OPC_JCC_LONG, OPC_MOVB_EVGV, OPC_MOVL_EVGV, OPC_MOVSBL,
    OPC_MOVSLQ, OPC_MOVSWL, OPC_MOVZBL, OPC_MOVZWL,
};
use crate::backend::enc::{
    enc_modrm, enc_opc, fits_i32, push_modrm, push_opc, push_u32, P_DATA16, P_REXB_R, P_REXB_RM, P_REXW,
};
use crate::backend::regs::{
    callee_saved, call_arg_regs, spec_call_arg_regs, spec_callee_saved, Reg, GUEST_BASE_OFFSET,
    STACK_ADDEND,
};
use crate::context::Context;
use crate::label::Label;
use crate::op::Op;
use crate::tb::{encode_tb_exit, spec_encode_tb_exit};
use crate::opcode::{Opcode, OpDef};
use crate::types::{Cond, RegSet, Type};

verus! {

/// Why an op could not be lowered to host code.
#[derive(Debug, Clone, Copy, PartialEq, Eq, Structural)]
pub enum CodegenError {
    /// The opcode has no x86-64 lowering.
    UnsupportedOp,
    /// A condition argument is not a condition code.
    InvalidCond,
    /// A branch names a label that does not exist.
    InvalidLabel,
    /// A bit-field position or width that no single instruction covers.
    UnsupportedField,
    /// A jump target beyond the reach of a 32-bit displacement.
    JumpOutOfRange,
}

/// The largest number of bytes that one op lowers to.
pub const MAX_OP_BYTES: usize = 32;

/// x86-64 code generator: the offsets of the prologue and of the two
/// epilogue entry points in the code buffer.
pub struct X86_64CodeGen {
    pub prologue_offset: usize,
    pub epilogue_return_zero_offset: usize,
    pub tb_ret_offset: usize,
    pub code_gen_start: usize,
}

/// The host register numbered `s[i]`.
pub open spec fn rg(s: Seq<u8>, i: int) -> Reg {
    Reg::spec_from_num(s[i])
}

/// All register numbers in `s` name one of the sixteen registers.
pub open spec fn regs_valid(s: Seq<u8>) -> bool {
    forall|i: int| 0 <= i < s.len() ==> #[trigger] s[i] < 16
}

/// The pushes of `regs`, in order.
pub open spec fn push_seq(regs: Seq<Reg>) -> Seq<u8>
    decreases regs.len(),
{
    if regs.len() == 0 {
        Seq::<u8>::empty()
    } else {
        push_seq(regs.drop_last()) + enc_push(regs.last())
    }
}

/// The pops of `regs`, last register first.
pub open spec fn pop_seq(regs: Seq<Reg>) -> Seq<u8>
    decreases regs.len(),
{
    if regs.len() == 0 {
        Seq::<u8>::empty()
    } else {
        enc_pop(regs.last()) + pop_seq(regs.drop_last())
    }
}

/// The prologue: save the callee-saved registers, take the env pointer from
/// the first argument, load the guest base, allocate the frame and jump to
/// the block whose address is the second argument.
pub open spec fn prologue_bytes() -> Seq<u8> {
    push_seq(spec_callee_saved()) + enc_mov_rr(true, Reg::Rbp, spec_call_arg_regs()[0]) + enc_load(
        true,
        Reg::R14,
        Reg::Rbp,
        GUEST_BASE_OFFSET,
    ) + enc_arith_ri(ArithOp::Sub, true, Reg::Rsp, STACK_ADDEND as i32) + enc_jmp_reg(
        spec_call_arg_regs()[1],
    )
}

/// The epilogue: the return-zero entry clears EAX; the block-return entry
/// (RAX already set) frees the frame, restores the saved registers and
/// returns.
pub open spec fn epilogue_bytes() -> Seq<u8> {
    enc_mov_ri(false, Reg::Rax, 0) + epilogue_tail()
}

/// The epilogue from the block-return entry on.
pub open spec fn epilogue_tail() -> Seq<u8> {
    enc_arith_ri(ArithOp::Add, true, Reg::Rsp, STACK_ADDEND as i32) + pop_seq(spec_callee_saved())
        + seq![0xC3u8]
}

/// The padding before a patchable jump at `at`, so that its displacement
/// field starts 4-byte aligned.
pub open spec fn goto_tb_pad(at: int) -> nat {
    ((4 - (at + 1) % 4) % 4) as nat
}

/// A `goto_tb` at `at`: padding, then `jmp rel32` with a zero displacement.
pub open spec fn goto_tb_bytes(at: int) -> Seq<u8> {
    nop_seq(goto_tb_pad(at)) + seq![0xE9u8, 0u8, 0u8, 0u8, 0u8]
}

/// Compare (or test, for the TST conditions) before a conditional.
pub open spec fn enc_compare(cond: Cond, rexw: bool, a: Reg, b: Reg) -> Seq<u8> {
    if cond.spec_is_tst() {
        enc_test_rr(rexw, a, b)
    } else {
        enc_arith_rr(ArithOp::Cmp, rexw, a, b)
    }
}

fn put_compare(v: &mut Vec<u8>, cond: Cond, rexw: bool, a: Reg, b: Reg)
    ensures
        final(v)@ == old(v)@ + enc_compare(cond, rexw, a, b),
{
    if cond.is_tst() {
        put_test_rr(v, rexw, a, b);
    } else {
        put_arith_rr(v, ArithOp::Cmp, rexw, a, b);
    }
}

/// The condition with code `c`, if `c` is one.
pub open spec fn cond_of(c: u32) -> Option<Cond> {
    if Cond::is_code(c) {
        Some(Cond::spec_from_code(c))
    } else {
        None
    }
}

/// The bytes of `dst = a - b`: in place when `dst` is `a`; as `-b + a` when
/// `dst` is `b`; else copy `a` first.
pub open spec fn enc_sub3(rexw: bool, d: Reg, a: Reg, b: Reg) -> Seq<u8> {
    if d == a {
        enc_arith_rr(ArithOp::Sub, rexw, d, b)
    } else if d == b {
        enc_neg(rexw, d) + enc_arith_rr(ArithOp::Add, rexw, d, a)
    } else {
        enc_mov_rr(rexw, d, a) + enc_arith_rr(ArithOp::Sub, rexw, d, b)
    }
}

/// The bytes of `dst = a + b`: in place when `dst` is either operand, else
/// LEA.
pub open spec fn enc_add3(rexw: bool, d: Reg, a: Reg, b: Reg) -> Seq<u8> {
    if d == a {
        enc_arith_rr(ArithOp::Add, rexw, d, b)
    } else if d == b {
        enc_arith_rr(ArithOp::Add, rexw, d, a)
    } else {
        enc_lea_sib(rexw, d, a, b, 0, 0)
    }
}

/// The bytes of a guest load of `size` (log2 bytes) into `d` from
/// `[R14 + addr]`, sign-extended when `sign`.
pub open spec fn enc_qemu_ld(rexw: bool, d: Reg, addr: Reg, size: u16, sign: bool) -> Seq<u8> {
    let w = if rexw { P_REXW } else { 0 };
    if size == 0 && !sign {
        enc_load_zx_sib(OPC_MOVZBL, d, Reg::R14, addr)
    } else if size == 0 {
        enc_load_sx_sib(OPC_MOVSBL | w, d, Reg::R14, addr)
    } else if size == 1 && !sign {
        enc_load_zx_sib(OPC_MOVZWL, d, Reg::R14, addr)
    } else if size == 1 {
        enc_load_sx_sib(OPC_MOVSWL | w, d, Reg::R14, addr)
    } else if size == 2 && !sign {
        enc_load_sib(false, d, Reg::R14, addr, 0, 0)
    } else if size == 2 {
        enc_load_sx_sib(OPC_MOVSLQ, d, Reg::R14, addr)
    } else {
        enc_load_sib(true, d, Reg::R14, addr, 0, 0)
    }
}

/// The bytes of a guest store of `size` (log2 bytes) of `val` to
/// `[R14 + addr]`.
pub open spec fn enc_qemu_st(val: Reg, addr: Reg, size: u16) -> Seq<u8> {
    if size == 0 {
        enc_store_byte_sib(val, Reg::R14, addr)
    } else if size == 1 {
        enc_store_word_sib(val, Reg::R14, addr)
    } else if size == 2 {
        enc_store_sib(false, val, Reg::R14, addr, 0, 0)
    } else {
        enc_store_sib(true, val, Reg::R14, addr, 0, 0)
    }
}

/// The bytes of a byte swap of `d` under the TCG swap flags (4 = sign-extend
/// the result, 2 = zero-extend the result, 1 = input already zero-extended).
pub open spec fn enc_bswap16(rexw: bool, d: Reg, flags: u32) -> Seq<u8> {
    if flags & 4 != 0 {
        if rexw {
            enc_bswap(true, d) + enc_shift_ri(ShiftOp::Sar, true, d, 48)
        } else {
            enc_bswap(false, d) + enc_shift_ri(ShiftOp::Sar, false, d, 16)
        }
    } else if flags & 3 == 2 {
        enc_bswap(false, d) + enc_shift_ri(ShiftOp::Shr, false, d, 16)
    } else {
        enc_rolw_8(d)
    }
}

impl X86_64CodeGen {
    /// The bytes of `exit_tb(val)` placed at `at`: a jump to the return-zero
    /// epilogue entry for 0, else RAX = `val` and a jump to the block-return
    /// entry.
    pub open spec fn exit_tb_bytes(&self, val: u64, at: int) -> Seq<u8> {
        if val == 0 {
            enc_jmp(self.epilogue_return_zero_offset as int, at)
        } else {
            enc_mov_ri(true, Reg::Rax, val) + enc_jmp(
                self.tb_ret_offset as int,
                at + enc_mov_ri(true, Reg::Rax, val).len(),
            )
        }
    }

    /// The jump of `exit_tb(val)` placed at `at` reaches its epilogue entry.
    pub open spec fn exit_tb_fits(&self, val: u64, at: int) -> bool {
        if val == 0 {
            fits_i32(self.epilogue_return_zero_offset - (at + 5))
        } else {
            fits_i32(self.tb_ret_offset - (at + enc_mov_ri(true, Reg::Rax, val).len() + 5))
        }
    }

    /// The host code of `op` placed at `at`, for output registers `o`, input
    /// registers `i` and constant arguments `c`, with the labels `labels`;
    /// `None` when the op cannot be lowered.
    pub open spec fn out_op(
        &self,
        labels: Seq<Label>,
        tb: u32,
        op: Op,
        o: Seq<u8>,
        i: Seq<u8>,
        c: Seq<u32>,
        at: int,
    ) -> Option<Seq<u8>> {
        if is_arith_op(op.opc) {
            Some(out_arith(op, o, i))
        } else if is_mem_op(op.opc) {
            Some(out_mem(op, o, i, c))
        } else if is_misc_op(op.opc) {
            Some(out_misc(op, o, i, c))
        } else if is_cond_op(op.opc) {
            out_cond(labels, op, o, i, c, at)
        } else if is_field_op(op.opc) {
            out_field(op, o, i, c)
        } else if op.opc is ExitTb {
            if self.exit_tb_fits(spec_encode_tb_exit(tb, c[0] as u64), at) {
                Some(self.exit_tb_bytes(spec_encode_tb_exit(tb, c[0] as u64), at))
            } else {
                None
            }
        } else if op.opc is GotoTb {
            Some(goto_tb_bytes(at))
        } else {
            None
        }
    }
}

/// Register-to-register arithmetic, logic, shifts and bit counts.
pub open spec fn is_arith_op(opc: Opcode) -> bool {
    matches!(opc, Opcode::Add | Opcode::Sub | Opcode::Mul | Opcode::And | Opcode::Or | Opcode::Xor
        | Opcode::Neg | Opcode::Not | Opcode::Shl | Opcode::Shr | Opcode::Sar | Opcode::RotL
        | Opcode::RotR | Opcode::MulS2 | Opcode::MulU2 | Opcode::DivS2 | Opcode::DivU2
        | Opcode::AddCO | Opcode::AddCI | Opcode::AddCIO | Opcode::AddC1O | Opcode::SubBO
        | Opcode::SubBI | Opcode::SubBIO | Opcode::SubB1O | Opcode::AndC | Opcode::Clz | Opcode::Ctz
        | Opcode::CtPop)
}

/// Host and guest memory loads and stores.
pub open spec fn is_mem_op(opc: Opcode) -> bool {
    matches!(opc, Opcode::Ld | Opcode::Ld8U | Opcode::Ld8S | Opcode::Ld16U | Opcode::Ld16S
        | Opcode::Ld32U | Opcode::Ld32S | Opcode::St | Opcode::St8 | Opcode::St16 | Opcode::St32
        | Opcode::QemuLd | Opcode::QemuSt)
}

/// Width conversions, byte swaps, the indirect jump and calls.
pub open spec fn is_misc_op(opc: Opcode) -> bool {
    matches!(opc, Opcode::ExtI32I64 | Opcode::ExtUI32I64 | Opcode::ExtrlI64I32 | Opcode::Extract2
        | Opcode::Bswap16 | Opcode::Bswap32 | Opcode::Bswap64 | Opcode::ExtrhI64I32 | Opcode::GotoPtr
        | Opcode::Call)
}

/// Ops that take a condition argument.
pub open spec fn is_cond_op(opc: Opcode) -> bool {
    matches!(opc, Opcode::SetCond | Opcode::NegSetCond | Opcode::BrCond | Opcode::MovCond)
}

/// Bit-field ops, lowered only for fields at bit 0 of a supported width.
pub open spec fn is_field_op(opc: Opcode) -> bool {
    matches!(opc, Opcode::Extract | Opcode::SExtract | Opcode::Deposit)
}

/// The host code of an arithmetic op.
pub open spec fn out_arith(op: Op, o: Seq<u8>, i: Seq<u8>) -> Seq<u8> {
    let w = op.op_type == Type::I64;
    match op.opc {
        Opcode::Add => enc_add3(w, rg(o, 0), rg(i, 0), rg(i, 1)),
        Opcode::Sub => enc_sub3(w, rg(o, 0), rg(i, 0), rg(i, 1)),
        Opcode::Mul => enc_imul_rr(w, rg(o, 0), rg(i, 1)),
        Opcode::And => enc_arith_rr(ArithOp::And, w, rg(o, 0), rg(i, 1)),
        Opcode::Or => enc_arith_rr(ArithOp::Or, w, rg(o, 0), rg(i, 1)),
        Opcode::Xor => enc_arith_rr(ArithOp::Xor, w, rg(o, 0), rg(i, 1)),
        Opcode::Neg => enc_neg(w, rg(o, 0)),
        Opcode::Not => enc_not(w, rg(o, 0)),
        Opcode::Shl => enc_shift_cl(ShiftOp::Shl, w, rg(o, 0)),
        Opcode::Shr => enc_shift_cl(ShiftOp::Shr, w, rg(o, 0)),
        Opcode::Sar => enc_shift_cl(ShiftOp::Sar, w, rg(o, 0)),
        Opcode::RotL => enc_shift_cl(ShiftOp::Rol, w, rg(o, 0)),
        Opcode::RotR => enc_shift_cl(ShiftOp::Ror, w, rg(o, 0)),
        Opcode::MulS2 => enc_imul1(w, rg(i, 1)),
        Opcode::MulU2 => enc_mul(w, rg(i, 1)),
        Opcode::DivS2 => enc_idiv(w, rg(i, 2)),
        Opcode::DivU2 => enc_div(w, rg(i, 2)),
        Opcode::AddCO => enc_arith_rr(ArithOp::Add, w, rg(o, 0), rg(i, 1)),
        Opcode::AddCI | Opcode::AddCIO => enc_arith_rr(ArithOp::Adc, w, rg(o, 0), rg(i, 1)),
        Opcode::AddC1O => seq![0xF9u8] + enc_arith_rr(ArithOp::Adc, w, rg(o, 0), rg(i, 1)),
        Opcode::SubBO => enc_arith_rr(ArithOp::Sub, w, rg(o, 0), rg(i, 1)),
        Opcode::SubBI | Opcode::SubBIO => enc_arith_rr(ArithOp::Sbb, w, rg(o, 0), rg(i, 1)),
        Opcode::SubB1O => seq![0xF9u8] + enc_arith_rr(ArithOp::Sbb, w, rg(o, 0), rg(i, 1)),
        Opcode::AndC => enc_andn(w, rg(o, 0), rg(i, 1), rg(i, 0)),
        Opcode::Clz => enc_lzcnt(w, rg(o, 0), rg(i, 0)),
        Opcode::Ctz => enc_tzcnt(w, rg(o, 0), rg(i, 0)),
        _ => enc_popcnt(w, rg(o, 0), rg(i, 0)),
    }
}

/// The host code of a memory op (offsets in `c[0]`, guest ops through R14).
pub open spec fn out_mem(op: Op, o: Seq<u8>, i: Seq<u8>, c: Seq<u32>) -> Seq<u8> {
    let w = op.op_type == Type::I64;
    let wf = if w { P_REXW } else { 0u32 };
    match op.opc {
        Opcode::Ld => enc_load(w, rg(o, 0), rg(i, 0), c[0] as i32),
        Opcode::Ld8U => enc_load_zx(OPC_MOVZBL, rg(o, 0), rg(i, 0), c[0] as i32),
        Opcode::Ld8S => enc_load_sx(OPC_MOVSBL | wf, rg(o, 0), rg(i, 0), c[0] as i32),
        Opcode::Ld16U => enc_load_zx(OPC_MOVZWL, rg(o, 0), rg(i, 0), c[0] as i32),
        Opcode::Ld16S => enc_load_sx(OPC_MOVSWL | wf, rg(o, 0), rg(i, 0), c[0] as i32),
        Opcode::Ld32U => enc_load(false, rg(o, 0), rg(i, 0), c[0] as i32),
        Opcode::Ld32S => enc_load_sx(OPC_MOVSLQ, rg(o, 0), rg(i, 0), c[0] as i32),
        Opcode::St => enc_store(w, rg(i, 0), rg(i, 1), c[0] as i32),
        Opcode::St8 => enc_store_byte(rg(i, 0), rg(i, 1), c[0] as i32),
        Opcode::St16 => enc_store_word(rg(i, 0), rg(i, 1), c[0] as i32),
        Opcode::St32 => enc_store(false, rg(i, 0), rg(i, 1), c[0] as i32),
        Opcode::QemuLd => enc_qemu_ld(w, rg(o, 0), rg(i, 0), (c[0] as u16) & 3, (c[0] as u16) & 4 != 0),
        _ => enc_qemu_st(rg(i, 0), rg(i, 1), (c[0] as u16) & 3),
    }
}

/// The host code of a conversion, byte swap, indirect jump or call.
pub open spec fn out_misc(op: Op, o: Seq<u8>, i: Seq<u8>, c: Seq<u32>) -> Seq<u8> {
    let w = op.op_type == Type::I64;
    match op.opc {
        Opcode::ExtI32I64 => enc_movsx(OPC_MOVSLQ, rg(o, 0), rg(i, 0)),
        Opcode::ExtUI32I64 | Opcode::ExtrlI64I32 => if o[0] != i[0] {
            enc_mov_rr(false, rg(o, 0), rg(i, 0))
        } else {
            Seq::<u8>::empty()
        },
        Opcode::Extract2 => enc_shrd_ri(w, rg(o, 0), rg(i, 1), c[0] as u8),
        Opcode::Bswap16 => enc_bswap16(w, rg(o, 0), c[0]),
        Opcode::Bswap32 => enc_bswap(false, rg(o, 0)) + if c[0] & 4 != 0 {
            enc_movsx(OPC_MOVSLQ, rg(o, 0), rg(o, 0))
        } else {
            Seq::<u8>::empty()
        },
        Opcode::Bswap64 => enc_bswap(true, rg(o, 0)),
        Opcode::ExtrhI64I32 => enc_shift_ri(ShiftOp::Shr, true, rg(o, 0), 32),
        Opcode::GotoPtr => enc_jmp_reg(rg(i, 0)),
        _ => enc_mov_ri(true, Reg::R11, ((c[1] as u64) << 32u64) | (c[0] as u64)) + enc_call_reg(Reg::R11),
    }
}

/// The host code of an op with a condition argument: compare (or test),
/// then SETcc (+ zero-extension, + negation), Jcc to the label, or CMOVcc on
/// the inverted condition.
pub open spec fn out_cond(labels: Seq<Label>, op: Op, o: Seq<u8>, i: Seq<u8>, c: Seq<u32>, at: int) -> Option<Seq<u8>> {
    let w = op.op_type == Type::I64;
    match cond_of(c[0]) {
        None => None,
        Some(cond) => {
            let x = X86Cond::spec_from_tcg(cond);
            let pre = enc_compare(cond, w, rg(i, 0), rg(i, 1));
            if op.opc is BrCond {
                if c[1] >= labels.len() {
                    None
                } else if labels[c[1] as int].has_value {
                    if fits_i32(labels[c[1] as int].value - (at + pre.len() + 6)) {
                        Some(pre + enc_jcc(x, labels[c[1] as int].value as int, at + pre.len()))
                    } else {
                        None
                    }
                } else {
                    Some(pre + enc_opc((OPC_JCC_LONG + x.spec_code()) as u32, 0, 0) + le32(0))
                }
            } else if op.opc is MovCond {
                Some(pre + enc_cmovcc(X86Cond::spec_from_code(x.spec_code() ^ 1u8), w, rg(o, 0), rg(i, 3)))
            } else {
                let b = pre + enc_setcc(x, rg(o, 0)) + enc_movzx(OPC_MOVZBL | P_REXB_RM, rg(o, 0), rg(o, 0));
                Some(if op.opc is NegSetCond { b + enc_neg(w, rg(o, 0)) } else { b })
            }
        },
    }
}

/// The host code of a bit-field op at bit 0: zero- or sign-extension for
/// extracts, a byte or word move for deposits.
pub open spec fn out_field(op: Op, o: Seq<u8>, i: Seq<u8>, c: Seq<u32>) -> Option<Seq<u8>> {
    let wf = if op.op_type == Type::I64 { P_REXW } else { 0u32 };
    if c[0] != 0 {
        None
    } else if op.opc is Extract {
        if c[1] == 8 {
            Some(enc_movzx(OPC_MOVZBL, rg(o, 0), rg(i, 0)))
        } else if c[1] == 16 {
            Some(enc_movzx(OPC_MOVZWL, rg(o, 0), rg(i, 0)))
        } else if c[1] == 32 {
            Some(enc_mov_rr(false, rg(o, 0), rg(i, 0)))
        } else {
            None
        }
    } else if op.opc is SExtract {
        if c[1] == 8 {
            Some(enc_movsx(OPC_MOVSBL | wf, rg(o, 0), rg(i, 0)))
        } else if c[1] == 16 {
            Some(enc_movsx(OPC_MOVSWL | wf, rg(o, 0), rg(i, 0)))
        } else if c[1] == 32 {
            Some(enc_movsx(OPC_MOVSLQ, rg(o, 0), rg(i, 0)))
        } else {
            None
        }
    } else {
        if c[1] == 8 {
            Some(enc_modrm(OPC_MOVB_EVGV | P_REXB_R | P_REXB_RM, rg(i, 1), rg(o, 0)))
        } else if c[1] == 16 {
            Some(enc_modrm(P_DATA16 | OPC_MOVL_EVGV, rg(i, 1), rg(o, 0)))
        } else {
            None
        }
    }
}

/// The error `tcg_out_op` gives for an op that `out_op` cannot lower.
pub open spec fn out_op_error(labels: Seq<Label>, op: Op, c: Seq<u32>) -> CodegenError {
    match op.opc {
        Opcode::SetCond | Opcode::NegSetCond | Opcode::MovCond => CodegenError::InvalidCond,
        Opcode::BrCond => if cond_of(c[0]) is None {
            CodegenError::InvalidCond
        } else if c[1] >= labels.len() {
            CodegenError::InvalidLabel
        } else {
            CodegenError::JumpOutOfRange
        },
        Opcode::ExitTb => CodegenError::JumpOutOfRange,
        Opcode::Extract | Opcode::SExtract | Opcode::Deposit => CodegenError::UnsupportedField,
        _ => CodegenError::UnsupportedOp,
    }
}

/// Whether the displacement from `after` to `target` fits 32 bits.
pub fn disp_fits(target: usize, after: usize) -> (r: bool)
    ensures
        r == fits_i32(target - after),
{
    if target >= after {
        target - after <= 0x7fff_ffff
    } else {
        after - target <= 0x8000_0000
    }
}

/// The register numbered `n`.
fn reg(n: u8) -> (r: Reg)
    requires
        n < 16,
    ensures
        r == Reg::spec_from_num(n),
{
    Reg::from_u8(n)
}

impl X86_64CodeGen {
    /// A code generator with all offsets at zero (no prologue emitted yet).
    pub fn new() -> (g: Self)
        ensures
            g.prologue_offset == 0,
            g.epilogue_return_zero_offset == 0,
            g.tb_ret_offset == 0,
            g.code_gen_start == 0,
    {
        X86_64CodeGen { prologue_offset: 0, epilogue_return_zero_offset: 0, tb_ret_offset: 0, code_gen_start: 0 }
    }

    fn put_exit_tb(&self, v: &mut Vec<u8>, val: u64, at: usize) -> (ok: bool)
        requires
            at + 32 <= usize::MAX,
        ensures
            ok == self.exit_tb_fits(val, at as int),
            ok ==> final(v)@ == old(v)@ + self.exit_tb_bytes(val, at as int),
            !ok ==> final(v)@ == old(v)@,
    {
        let ghost v0 = v@;
        if val == 0 {
            if !disp_fits(self.epilogue_return_zero_offset, at + 5) {
                return false;
            }
            put_jmp(v, self.epilogue_return_zero_offset, at);
        } else {
            let mut m: Vec<u8> = Vec::new();
            put_mov_ri(&mut m, true, Reg::Rax, val);
            assert(m@ =~= enc_mov_ri(true, Reg::Rax, val));
            proof {
                broadcast use crate::backend::enc::group_enc_len;
            }
            assert(m@.len() <= 14);
            let ml = m.len();
            if !disp_fits(self.tb_ret_offset, at + ml + 5) {
                return false;
            }
            put_mov_ri(v, true, Reg::Rax, val);
            put_jmp(v, self.tb_ret_offset, at + ml);
        }
        assert(v@ =~= v0 + self.exit_tb_bytes(val, at as int));
        true
    }

    /// Emit `exit_tb(val)`: RAX = `val` and return through the epilogue.
    pub fn emit_exit_tb(&self, buf: &mut CodeBuffer, val: u64)
        requires
            old(buf).has_room(32),
            self.exit_tb_fits(val, old(buf).offset as int),
        ensures
            final(buf).emitted(old(buf), self.exit_tb_bytes(val, old(buf).offset as int)),
    {
        let mut v: Vec<u8> = Vec::new();
        self.put_exit_tb(&mut v, val, buf.offset());
        assert(v@ =~= self.exit_tb_bytes(val, old(buf).offset as int));
        proof {
            broadcast use crate::backend::enc::group_enc_len;
        }
        buf.emit_bytes(v.as_slice());
    }

    fn put_goto_tb(v: &mut Vec<u8>, at: usize) -> (r: (usize, usize))
        requires
            at + 8 <= usize::MAX,
        ensures
            final(v)@ == old(v)@ + goto_tb_bytes(at as int),
            r.0 == at + goto_tb_pad(at as int),
            r.1 == r.0 + 5,
    {
        let ghost v0 = v@;
        let pad = (4 - (at + 1) % 4) % 4;
        put_nops(v, pad);
        v.push(0xE9);
        push_u32(v, 0);
        proof {
            crate::backend::code_buffer::lemma_le32_zero();
        }
        assert(v@ =~= v0 + goto_tb_bytes(at as int));
        (at + pad, at + pad + 5)
    }

    /// Emit `goto_tb`: a patchable `jmp rel32` whose displacement field is
    /// 4-byte aligned; returns the offsets of the jump and of the code after
    /// it.
    pub fn emit_goto_tb(&self, buf: &mut CodeBuffer) -> (r: (usize, usize))
        requires
            old(buf).has_room(8),
        ensures
            final(buf).emitted(old(buf), goto_tb_bytes(old(buf).offset as int)),
            r.0 == old(buf).offset + goto_tb_pad(old(buf).offset as int),
            r.1 == r.0 + 5,
            (r.0 + 1) % 4 == 0,
    {
        let mut v: Vec<u8> = Vec::new();
        let r = Self::put_goto_tb(&mut v, buf.offset());
        proof {
            lemma_nop_seq_len(goto_tb_pad(old(buf).offset as int));
        }
        assert(v@ =~= goto_tb_bytes(old(buf).offset as int));
        buf.emit_bytes(v.as_slice());
        r
    }

    /// Emit `goto_ptr(reg)`: an indirect jump through `reg`.
    pub fn emit_goto_ptr(buf: &mut CodeBuffer, reg: Reg)
        requires
            old(buf).has_room(enc_jmp_reg(reg).len() as int),
        ensures
            final(buf).emitted(old(buf), enc_jmp_reg(reg)),
    {
        crate::backend::emitter::emit_jmp_reg(buf, reg);
    }

    /// Emit the prologue and record where it starts and where generated
    /// code may begin.
    pub fn emit_prologue(&mut self, buf: &mut CodeBuffer)
        requires
            old(buf).has_room(prologue_bytes().len() as int),
        ensures
            final(buf).emitted(old(buf), prologue_bytes()),
            final(self).prologue_offset == old(buf).offset,
            final(self).code_gen_start == final(buf).offset,
            final(self).epilogue_return_zero_offset == old(self).epilogue_return_zero_offset,
            final(self).tb_ret_offset == old(self).tb_ret_offset,
    {
        self.prologue_offset = buf.offset();
        let cs = callee_saved();
        let args = call_arg_regs();
        let mut v: Vec<u8> = Vec::new();
        let mut k: usize = 0;
        while k < 6
            invariant
                k <= 6,
                cs@ == spec_callee_saved(),
                v@ == push_seq(cs@.take(k as int)),
            decreases 6 - k,
        {
            put_push(&mut v, cs[k]);
            proof {
                assert(cs@.take(k + 1).drop_last() =~= cs@.take(k as int));
            }
            k = k + 1;
        }
        assert(cs@.take(6) =~= cs@);
        put_mov_rr(&mut v, true, Reg::Rbp, args[0]);
        put_load(&mut v, true, Reg::R14, Reg::Rbp, GUEST_BASE_OFFSET);
        put_arith_ri(&mut v, ArithOp::Sub, true, Reg::Rsp, STACK_ADDEND as i32);
        put_jmp_reg(&mut v, args[1]);
        assert(v@ =~= prologue_bytes());
        buf.emit_bytes(v.as_slice());
        self.code_gen_start = buf.offset();
    }

    /// Emit the epilogue and record its two entry points.
    pub fn emit_epilogue(&mut self, buf: &mut CodeBuffer)
        requires
            old(buf).has_room(epilogue_bytes().len() as int),
        ensures
            final(buf).emitted(old(buf), epilogue_bytes()),
            final(self).epilogue_return_zero_offset == old(buf).offset,
            final(self).tb_ret_offset == old(buf).offset + enc_mov_ri(false, Reg::Rax, 0).len(),
            final(self).prologue_offset == old(self).prologue_offset,
            final(self).code_gen_start == old(self).code_gen_start,
    {
        self.epilogue_return_zero_offset = buf.offset();
        let mut v: Vec<u8> = Vec::new();
        put_mov_ri(&mut v, false, Reg::Rax, 0);
        assert(v@ =~= enc_mov_ri(false, Reg::Rax, 0));
        proof {
            broadcast use crate::backend::enc::group_enc_len;
        }
        self.tb_ret_offset = buf.offset() + v.len();
        let ghost v1 = v@;
        put_arith_ri(&mut v, ArithOp::Add, true, Reg::Rsp, STACK_ADDEND as i32);
        let cs = callee_saved();
        assert(cs@.take(6) =~= cs@);
        let mut k: usize = 6;
        while k > 0
            invariant
                k <= 6,
                cs@ == spec_callee_saved(),
                v@ + pop_seq(cs@.take(k as int)) == v1 + enc_arith_ri(ArithOp::Add, true, Reg::Rsp, STACK_ADDEND as i32)
                    + pop_seq(cs@),
            decreases k,
        {
            let ghost before = v@;
            put_pop(&mut v, cs[k - 1]);
            proof {
                assert(cs@.take(k as int).drop_last() =~= cs@.take(k - 1));
                assert(cs@.take(k as int).last() == cs@[k - 1]);
                assert(v@ + pop_seq(cs@.take(k - 1)) =~= before + pop_seq(cs@.take(k as int)));
            }
            k = k - 1;
        }
        assert(cs@.take(6) =~= cs@);
        assert(pop_seq(cs@.take(0)) =~= Seq::<u8>::empty());
        put_ret(&mut v);
        assert(v@ =~= epilogue_bytes());
        buf.emit_bytes(v.as_slice());
    }

    /// Patch the direct jump at `jump_offset` (opcode byte, then rel32) to
    /// land on `target_offset`.
    pub fn patch_jump(&self, buf: &mut CodeBuffer, jump_offset: usize, target_offset: usize)
        requires
            jump_offset + 5 <= old(buf).data@.len(),
            old(buf).wf(),
            i32::MIN <= target_offset - (jump_offset + 5) <= i32::MAX,
        ensures
            final(buf).data@ == write_at(old(buf).data@, jump_offset + 1, le32((target_offset - (jump_offset + 5)) as u32)),
            final(buf).offset == old(buf).offset,
    {
        let disp = (target_offset as u64).wrapping_sub((jump_offset + 5) as u64);
        proof {
            lemma_disp32(target_offset as u64, (jump_offset + 5) as u64);
        }
        buf.patch_u32(jump_offset + 1, disp as u32);
    }

    /// Where the block-return entry of the epilogue is.
    pub fn epilogue_offset(&self) -> (r: usize)
        ensures
            r == self.tb_ret_offset,
    {
        self.tb_ret_offset
    }

    /// Set up a context for this backend: RSP and RBP reserved, spill slots
    /// on the stack after the outgoing call arguments.
    pub fn init_context(&self, ctx: &mut Context)
        ensures
            final(ctx).reserved_regs.0 == 0x30,
            final(ctx).frame_reg == Some(4u8),
            final(ctx).frame_start == 128,
            final(ctx).frame_end == 128 + 1024,
            final(ctx).frame_alloc_end == 128,
            final(ctx).temps_view() == old(ctx).temps_view(),
            final(ctx).ops_view() == old(ctx).ops_view(),
            final(ctx).labels_view() == old(ctx).labels_view(),
            final(ctx).consts_view() == old(ctx).consts_view(),
            final(ctx).spec_nb_globals() == old(ctx).spec_nb_globals(),
            final(ctx).gen_insn_end_off@ == old(ctx).gen_insn_end_off@,
    {
        ctx.reserved_regs = crate::backend::regs::reserved_regs();
        ctx.set_frame(
            4,
            crate::backend::regs::STATIC_CALL_ARGS_SIZE as i64,
            (crate::backend::regs::CPU_TEMP_BUF_NLONGS * 8) as i64,
        );
    }

    /// Copy register `src` to `dst` (nothing when they are the same).
    pub fn tcg_out_mov(&self, buf: &mut CodeBuffer, ty: Type, dst: u8, src: u8)
        requires
            dst < 16,
            src < 16,
            dst != src ==> old(buf).has_room(enc_mov_rr(ty == Type::I64, Reg::spec_from_num(dst), Reg::spec_from_num(src)).len() as int),
            old(buf).wf(),
        ensures
            dst == src ==> *final(buf) == *old(buf),
            dst != src ==> final(buf).emitted(old(buf), enc_mov_rr(ty == Type::I64, Reg::spec_from_num(dst), Reg::spec_from_num(src))),
    {
        if dst == src {
            return;
        }
        let rexw = ty == Type::I64;
        crate::backend::emitter::emit_mov_rr(buf, rexw, reg(dst), reg(src));
    }

    /// Load the constant `val` into register `dst`.
    pub fn tcg_out_movi(&self, buf: &mut CodeBuffer, ty: Type, dst: u8, val: u64)
        requires
            dst < 16,
            old(buf).has_room(enc_mov_ri(ty == Type::I64, Reg::spec_from_num(dst), val).len() as int),
        ensures
            final(buf).emitted(old(buf), enc_mov_ri(ty == Type::I64, Reg::spec_from_num(dst), val)),
    {
        let rexw = ty == Type::I64;
        crate::backend::emitter::emit_mov_ri(buf, rexw, reg(dst), val);
    }

    /// Load register `dst` from `[base + offset]` (the offset taken as 32
    /// bits).
    pub fn tcg_out_ld(&self, buf: &mut CodeBuffer, ty: Type, dst: u8, base: u8, offset: i64)
        requires
            dst < 16,
            base < 16,
            old(buf).has_room(
                enc_load(ty == Type::I64, Reg::spec_from_num(dst), Reg::spec_from_num(base), offset as i32).len() as int,
            ),
        ensures
            final(buf).emitted(
                old(buf),
                enc_load(ty == Type::I64, Reg::spec_from_num(dst), Reg::spec_from_num(base), offset as i32),
            ),
    {
        let rexw = ty == Type::I64;
        crate::backend::emitter::emit_load(buf, rexw, reg(dst), reg(base), offset as i32);
    }

    /// Store register `src` to `[base + offset]` (the offset taken as 32
    /// bits).
    pub fn tcg_out_st(&self, buf: &mut CodeBuffer, ty: Type, src: u8, base: u8, offset: i64)
        requires
            src < 16,
            base < 16,
            old(buf).has_room(
                enc_store(ty == Type::I64, Reg::spec_from_num(src), Reg::spec_from_num(base), offset as i32).len() as int,
            ),
        ensures
            final(buf).emitted(
                old(buf),
                enc_store(ty == Type::I64, Reg::spec_from_num(src), Reg::spec_from_num(base), offset as i32),
            ),
    {
        let rexw = ty == Type::I64;
        crate::backend::emitter::emit_store(buf, rexw, reg(src), reg(base), offset as i32);
    }
    /// Append the host code of an arithmetic op.
    #[verifier::spinoff_prover]
    #[verifier::rlimit(100)]
    fn put_arith_op(v: &mut Vec<u8>, op: &Op, oregs: &[u8], iregs: &[u8], cargs: &[u32])
        requires
            oregs@.len() == op.opc.spec_def().nb_oargs,
            iregs@.len() == op.opc.spec_def().nb_iargs,
            cargs@.len() == op.opc.spec_def().nb_cargs,
            regs_valid(oregs@),
            regs_valid(iregs@),
            is_arith_op(op.opc),
        ensures
            final(v)@ == old(v)@ + out_arith(*op, oregs@, iregs@),
    {
        let rexw = op.op_type == Type::I64;
        let wf: u32 = if rexw { P_REXW } else { 0 };
        match op.opc {
            Opcode::Add => {
                let d = reg(oregs[0]);
                let a = reg(iregs[0]);
                let b = reg(iregs[1]);
                if d == a {
                    put_arith_rr(v, ArithOp::Add, rexw, d, b);
                } else if d == b {
                    put_arith_rr(v, ArithOp::Add, rexw, d, a);
                } else {
                    put_lea_sib(v, rexw, d, a, b, 0, 0);
                }
            },
            Opcode::Sub => {
                let d = reg(oregs[0]);
                let a = reg(iregs[0]);
                let b = reg(iregs[1]);
                if d == a {
                    put_arith_rr(v, ArithOp::Sub, rexw, d, b);
                } else if d == b {
                    put_neg(v, rexw, d);
                    put_arith_rr(v, ArithOp::Add, rexw, d, a);
                } else {
                    put_mov_rr(v, rexw, d, a);
                    put_arith_rr(v, ArithOp::Sub, rexw, d, b);
                }
            },
            Opcode::Mul => put_imul_rr(v, rexw, reg(oregs[0]), reg(iregs[1])),
            Opcode::And => put_arith_rr(v, ArithOp::And, rexw, reg(oregs[0]), reg(iregs[1])),
            Opcode::Or => put_arith_rr(v, ArithOp::Or, rexw, reg(oregs[0]), reg(iregs[1])),
            Opcode::Xor => put_arith_rr(v, ArithOp::Xor, rexw, reg(oregs[0]), reg(iregs[1])),
            Opcode::Neg => put_neg(v, rexw, reg(oregs[0])),
            Opcode::Not => put_not(v, rexw, reg(oregs[0])),
            Opcode::Shl => put_shift_cl(v, ShiftOp::Shl, rexw, reg(oregs[0])),
            Opcode::Shr => put_shift_cl(v, ShiftOp::Shr, rexw, reg(oregs[0])),
            Opcode::Sar => put_shift_cl(v, ShiftOp::Sar, rexw, reg(oregs[0])),
            Opcode::RotL => put_shift_cl(v, ShiftOp::Rol, rexw, reg(oregs[0])),
            Opcode::RotR => put_shift_cl(v, ShiftOp::Ror, rexw, reg(oregs[0])),
            Opcode::MulS2 => put_imul1(v, rexw, reg(iregs[1])),
            Opcode::MulU2 => put_mul(v, rexw, reg(iregs[1])),
            Opcode::DivS2 => put_idiv(v, rexw, reg(iregs[2])),
            Opcode::DivU2 => put_div(v, rexw, reg(iregs[2])),
            Opcode::AddCO => put_arith_rr(v, ArithOp::Add, rexw, reg(oregs[0]), reg(iregs[1])),
            Opcode::AddCI | Opcode::AddCIO => put_arith_rr(v, ArithOp::Adc, rexw, reg(oregs[0]), reg(iregs[1])),
            Opcode::AddC1O => {
                put_stc(v);
                put_arith_rr(v, ArithOp::Adc, rexw, reg(oregs[0]), reg(iregs[1]));
            },
            Opcode::SubBO => put_arith_rr(v, ArithOp::Sub, rexw, reg(oregs[0]), reg(iregs[1])),
            Opcode::SubBI | Opcode::SubBIO => put_arith_rr(v, ArithOp::Sbb, rexw, reg(oregs[0]), reg(iregs[1])),
            Opcode::SubB1O => {
                put_stc(v);
                put_arith_rr(v, ArithOp::Sbb, rexw, reg(oregs[0]), reg(iregs[1]));
            },
            Opcode::AndC => put_andn(v, rexw, reg(oregs[0]), reg(iregs[1]), reg(iregs[0])),
            Opcode::Clz => put_lzcnt(v, rexw, reg(oregs[0]), reg(iregs[0])),
            Opcode::Ctz => put_tzcnt(v, rexw, reg(oregs[0]), reg(iregs[0])),
            Opcode::CtPop => put_popcnt(v, rexw, reg(oregs[0]), reg(iregs[0])),
            _ => {},
        }
    }

    /// Append the host code of a memory op.
    fn put_mem_op(v: &mut Vec<u8>, op: &Op, oregs: &[u8], iregs: &[u8], cargs: &[u32])
        requires
            oregs@.len() == op.opc.spec_def().nb_oargs,
            iregs@.len() == op.opc.spec_def().nb_iargs,
            cargs@.len() == op.opc.spec_def().nb_cargs,
            regs_valid(oregs@),
            regs_valid(iregs@),
            is_mem_op(op.opc),
        ensures
            final(v)@ == old(v)@ + out_mem(*op, oregs@, iregs@, cargs@),
    {
        let rexw = op.op_type == Type::I64;
        let wf: u32 = if rexw { P_REXW } else { 0 };
        match op.opc {
            Opcode::Ld => put_load(v, rexw, reg(oregs[0]), reg(iregs[0]), cargs[0] as i32),
            Opcode::Ld8U => put_load_zx(v, OPC_MOVZBL, reg(oregs[0]), reg(iregs[0]), cargs[0] as i32),
            Opcode::Ld8S => put_load_sx(v, OPC_MOVSBL | wf, reg(oregs[0]), reg(iregs[0]), cargs[0] as i32),
            Opcode::Ld16U => put_load_zx(v, OPC_MOVZWL, reg(oregs[0]), reg(iregs[0]), cargs[0] as i32),
            Opcode::Ld16S => put_load_sx(v, OPC_MOVSWL | wf, reg(oregs[0]), reg(iregs[0]), cargs[0] as i32),
            Opcode::Ld32U => put_load(v, false, reg(oregs[0]), reg(iregs[0]), cargs[0] as i32),
            Opcode::Ld32S => put_load_sx(v, OPC_MOVSLQ, reg(oregs[0]), reg(iregs[0]), cargs[0] as i32),
            Opcode::St => put_store(v, rexw, reg(iregs[0]), reg(iregs[1]), cargs[0] as i32),
            Opcode::St8 => put_store_byte(v, reg(iregs[0]), reg(iregs[1]), cargs[0] as i32),
            Opcode::St16 => put_store_word(v, reg(iregs[0]), reg(iregs[1]), cargs[0] as i32),
            Opcode::St32 => put_store(v, false, reg(iregs[0]), reg(iregs[1]), cargs[0] as i32),
            Opcode::QemuLd => {
                let d = reg(oregs[0]);
                let addr = reg(iregs[0]);
                let memop = cargs[0] as u16;
                let size = memop & 3;
                let sign = memop & 4 != 0;
                if size == 0 && !sign {
                    put_load_zx_sib(v, OPC_MOVZBL, d, Reg::R14, addr);
                } else if size == 0 {
                    put_load_sx_sib(v, OPC_MOVSBL | wf, d, Reg::R14, addr);
                } else if size == 1 && !sign {
                    put_load_zx_sib(v, OPC_MOVZWL, d, Reg::R14, addr);
                } else if size == 1 {
                    put_load_sx_sib(v, OPC_MOVSWL | wf, d, Reg::R14, addr);
                } else if size == 2 && !sign {
                    put_load_sib(v, false, d, Reg::R14, addr, 0, 0);
                } else if size == 2 {
                    put_load_sx_sib(v, OPC_MOVSLQ, d, Reg::R14, addr);
                } else {
                    put_load_sib(v, true, d, Reg::R14, addr, 0, 0);
                }
            },
            Opcode::QemuSt => {
                let val = reg(iregs[0]);
                let addr = reg(iregs[1]);
                let size = (cargs[0] as u16) & 3;
                if size == 0 {
                    put_store_byte_sib(v, val, Reg::R14, addr);
                } else if size == 1 {
                    put_store_word_sib(v, val, Reg::R14, addr);
                } else if size == 2 {
                    put_store_sib(v, false, val, Reg::R14, addr, 0, 0);
                } else {
                    put_store_sib(v, true, val, Reg::R14, addr, 0, 0);
                }
            },
            _ => {},
        }
    }

    /// Append the host code of a conversion, byte swap, indirect jump or call.
    fn put_misc_op(v: &mut Vec<u8>, op: &Op, oregs: &[u8], iregs: &[u8], cargs: &[u32])
        requires
            oregs@.len() == op.opc.spec_def().nb_oargs,
            iregs@.len() == op.opc.spec_def().nb_iargs,
            cargs@.len() == op.opc.spec_def().nb_cargs,
            regs_valid(oregs@),
            regs_valid(iregs@),
            is_misc_op(op.opc),
        ensures
            final(v)@ == old(v)@ + out_misc(*op, oregs@, iregs@, cargs@),
    {
        let rexw = op.op_type == Type::I64;
        let wf: u32 = if rexw { P_REXW } else { 0 };
        match op.opc {
            Opcode::ExtI32I64 => put_movsx(v, OPC_MOVSLQ, reg(oregs[0]), reg(iregs[0])),
            Opcode::ExtUI32I64 | Opcode::ExtrlI64I32 => {
                if oregs[0] != iregs[0] {
                    put_mov_rr(v, false, reg(oregs[0]), reg(iregs[0]));
                }
            },
            Opcode::Extract2 => put_shrd_ri(v, rexw, reg(oregs[0]), reg(iregs[1]), cargs[0] as u8),
            Opcode::Bswap16 => {
                let d = reg(oregs[0]);
                let flags = cargs[0];
                if flags & 4 != 0 {
                    if rexw {
                        put_bswap(v, true, d);
                        put_shift_ri(v, ShiftOp::Sar, true, d, 48);
                    } else {
                        put_bswap(v, false, d);
                        put_shift_ri(v, ShiftOp::Sar, false, d, 16);
                    }
                } else if flags & 3 == 2 {
                    put_bswap(v, false, d);
                    put_shift_ri(v, ShiftOp::Shr, false, d, 16);
                } else {
                    put_rolw_8(v, d);
                }
            },
            Opcode::Bswap32 => {
                let d = reg(oregs[0]);
                put_bswap(v, false, d);
                if cargs[0] & 4 != 0 {
                    put_movsx(v, OPC_MOVSLQ, d, d);
                }
            },
            Opcode::Bswap64 => put_bswap(v, true, reg(oregs[0])),
            Opcode::ExtrhI64I32 => put_shift_ri(v, ShiftOp::Shr, true, reg(oregs[0]), 32),
            Opcode::GotoPtr => put_jmp_reg(v, reg(iregs[0])),
            Opcode::Call => {
                let func = ((cargs[1] as u64) << 32) | (cargs[0] as u64);
                put_mov_ri(v, true, Reg::R11, func);
                put_call_reg(v, Reg::R11);
            },
            _ => {},
        }
    }

    /// Append the host code of an op with a condition argument.
    #[verifier::spinoff_prover]
    #[verifier::rlimit(100)]
    fn put_cond_op(
        v: &mut Vec<u8>,
        ctx: &Context,
        op: &Op,
        oregs: &[u8],
        iregs: &[u8],
        cargs: &[u32],
        at: usize,
    ) -> (r: Result<(), CodegenError>)
        requires
            oregs@.len() == op.opc.spec_def().nb_oargs,
            iregs@.len() == op.opc.spec_def().nb_iargs,
            cargs@.len() == op.opc.spec_def().nb_cargs,
            regs_valid(oregs@),
            regs_valid(iregs@),
            is_cond_op(op.opc),
            at + 32 <= usize::MAX,
        ensures
            match out_cond(ctx.labels_view(), *op, oregs@, iregs@, cargs@, at as int) {
                None => r == Err::<(), CodegenError>(out_op_error(ctx.labels_view(), *op, cargs@)),
                Some(b) => r is Ok && final(v)@ == old(v)@ + b,
            },
    {
        let ghost v0 = v@;
        let rexw = op.op_type == Type::I64;
        match op.opc {
            Opcode::BrCond => {
                let cond = match Cond::from_u32(cargs[0]) {
                    Some(c) => c,
                    None => {
                        return Err(CodegenError::InvalidCond);
                    },
                };
                if cargs[1] as usize >= ctx.labels().len() {
                    return Err(CodegenError::InvalidLabel);
                }
                let x = X86Cond::from_tcg(cond);
                let mut pre: Vec<u8> = Vec::new();
                put_compare(&mut pre, cond, rexw, reg(iregs[0]), reg(iregs[1]));
                let label = ctx.label(cargs[1]);
                put_compare(v, cond, rexw, reg(iregs[0]), reg(iregs[1]));
                if label.has_value {
                    if !disp_fits(label.value, at + pre.len() + 6) {
                        return Err(CodegenError::JumpOutOfRange);
                    }
                    put_jcc(v, x, label.value, at + pre.len());
                } else {
                    push_opc(v, OPC_JCC_LONG + (x.code() as u32), 0, 0);
                    push_u32(v, 0);
                }
            },
            Opcode::MovCond => {
                let cond = match Cond::from_u32(cargs[0]) {
                    Some(c) => c,
                    None => {
                        return Err(CodegenError::InvalidCond);
                    },
                };
                let x = X86Cond::from_tcg(cond);
                put_compare(v, cond, rexw, reg(iregs[0]), reg(iregs[1]));
                put_cmovcc(v, x.invert(), rexw, reg(oregs[0]), reg(iregs[3]));
            },
            Opcode::SetCond => {
                let cond = match Cond::from_u32(cargs[0]) {
                    Some(c) => c,
                    None => {
                        return Err(CodegenError::InvalidCond);
                    },
                };
                let d = reg(oregs[0]);
                put_compare(v, cond, rexw, reg(iregs[0]), reg(iregs[1]));
                put_setcc(v, X86Cond::from_tcg(cond), d);
                put_movzx(v, OPC_MOVZBL | P_REXB_RM, d, d);
            },
            _ => {
                let cond = match Cond::from_u32(cargs[0]) {
                    Some(c) => c,
                    None => {
                        return Err(CodegenError::InvalidCond);
                    },
                };
                let d = reg(oregs[0]);
                put_compare(v, cond, rexw, reg(iregs[0]), reg(iregs[1]));
                put_setcc(v, X86Cond::from_tcg(cond), d);
                put_movzx(v, OPC_MOVZBL | P_REXB_RM, d, d);
                put_neg(v, rexw, d);
            },
        }
        assert(v@ =~= v0 + out_cond(ctx.labels_view(), *op, oregs@, iregs@, cargs@, at as int)->0);
        Ok(())
    }

    /// Append the host code of a bit-field op.
    fn put_field_op(v: &mut Vec<u8>, op: &Op, oregs: &[u8], iregs: &[u8], cargs: &[u32]) -> (r: Result<
        (),
        CodegenError,
    >)
        requires
            oregs@.len() == op.opc.spec_def().nb_oargs,
            iregs@.len() == op.opc.spec_def().nb_iargs,
            cargs@.len() == op.opc.spec_def().nb_cargs,
            regs_valid(oregs@),
            regs_valid(iregs@),
            is_field_op(op.opc),
        ensures
            match out_field(*op, oregs@, iregs@, cargs@) {
                None => r == Err::<(), CodegenError>(CodegenError::UnsupportedField),
                Some(b) => r is Ok && final(v)@ == old(v)@ + b,
            },
    {
        let ghost v0 = v@;
        let wf: u32 = if op.op_type == Type::I64 { P_REXW } else { 0 };
        let d = reg(oregs[0]);
        if cargs[0] != 0 {
            return Err(CodegenError::UnsupportedField);
        }
        if op.opc == Opcode::Extract {
            let src = reg(iregs[0]);
            if cargs[1] == 8 {
                put_movzx(v, OPC_MOVZBL, d, src);
            } else if cargs[1] == 16 {
                put_movzx(v, OPC_MOVZWL, d, src);
            } else if cargs[1] == 32 {
                put_mov_rr(v, false, d, src);
            } else {
                return Err(CodegenError::UnsupportedField);
            }
        } else if op.opc == Opcode::SExtract {
            let src = reg(iregs[0]);
            if cargs[1] == 8 {
                put_movsx(v, OPC_MOVSBL | wf, d, src);
            } else if cargs[1] == 16 {
                put_movsx(v, OPC_MOVSWL | wf, d, src);
            } else if cargs[1] == 32 {
                put_movsx(v, OPC_MOVSLQ, d, src);
            } else {
                return Err(CodegenError::UnsupportedField);
            }
        } else {
            let src = reg(iregs[1]);
            if cargs[1] == 8 {
                push_modrm(v, OPC_MOVB_EVGV | P_REXB_R | P_REXB_RM, src, d);
            } else if cargs[1] == 16 {
                push_modrm(v, P_DATA16 | OPC_MOVL_EVGV, src, d);
            } else {
                return Err(CodegenError::UnsupportedField);
            }
        }
        assert(v@ =~= v0 + out_field(*op, oregs@, iregs@, cargs@)->0);
        Ok(())
    }

    #[verifier::spinoff_prover]
    /// Lower one IR op to host code: `oregs`/`iregs` are the host registers
    /// given to its outputs and inputs, `cargs` its constant arguments.
    /// Returns the jump and reset offsets of a `goto_tb`.
    pub fn tcg_out_op(
        &self,
        buf: &mut CodeBuffer,
        ctx: &Context,
        op: &Op,
        oregs: &[u8],
        iregs: &[u8],
        cargs: &[u32],
    ) -> (r: Result<Option<(usize, usize)>, CodegenError>)
        requires
            old(buf).wf(),
            old(buf).offset + MAX_OP_BYTES <= usize::MAX,
            oregs@.len() == op.opc.spec_def().nb_oargs,
            iregs@.len() == op.opc.spec_def().nb_iargs,
            cargs@.len() == op.opc.spec_def().nb_cargs,
            regs_valid(oregs@),
            regs_valid(iregs@),
            self.out_op(ctx.labels_view(), ctx.tb_idx, *op, oregs@, iregs@, cargs@, old(buf).offset as int) matches Some(
                b,
            ) ==> old(buf).has_room(b.len() as int),
        ensures
            match self.out_op(ctx.labels_view(), ctx.tb_idx, *op, oregs@, iregs@, cargs@, old(buf).offset as int) {
                None => r == Err::<Option<(usize, usize)>, CodegenError>(
                    out_op_error(ctx.labels_view(), *op, cargs@),
                ) && *final(buf) == *old(buf),
                Some(b) => final(buf).emitted(old(buf), b) && (r matches Ok(g) && (g is Some
                    <==> op.opc is GotoTb)),
            },
            r matches Ok(Some(g)) ==> g.0 == old(buf).offset + goto_tb_pad(old(buf).offset as int) && g.1
                == g.0 + 5,
    {
        let at = buf.offset();
        let mut v: Vec<u8> = Vec::new();
        let mut goto: Option<(usize, usize)> = None;
        if is_arith(op.opc) {
            Self::put_arith_op(&mut v, op, oregs, iregs, cargs);
        } else if is_mem(op.opc) {
            Self::put_mem_op(&mut v, op, oregs, iregs, cargs);
        } else if is_misc(op.opc) {
            Self::put_misc_op(&mut v, op, oregs, iregs, cargs);
        } else if is_cond(op.opc) {
            let r = Self::put_cond_op(&mut v, ctx, op, oregs, iregs, cargs, at);
            if let Err(e) = r {
                return Err(e);
            }
        } else if is_field(op.opc) {
            let r = Self::put_field_op(&mut v, op, oregs, iregs, cargs);
            if let Err(e) = r {
                return Err(e);
            }
        } else if op.opc == Opcode::ExitTb {
            if !self.put_exit_tb(&mut v, encode_tb_exit(ctx.tb_idx, cargs[0] as u64), at) {
                return Err(CodegenError::JumpOutOfRange);
            }
        } else if op.opc == Opcode::GotoTb {
            let g = Self::put_goto_tb(&mut v, at);
            goto = Some(g);
        } else {
            return Err(CodegenError::UnsupportedOp);
        }
        assert(v@ =~= self.out_op(ctx.labels_view(), ctx.tb_idx, *op, oregs@, iregs@, cargs@, at as int)->0);
        buf.emit_bytes(v.as_slice());
        Ok(goto)
    }
}

fn is_arith(opc: Opcode) -> (r: bool)
    ensures
        r == is_arith_op(opc),
{
    matches!(opc, Opcode::Add | Opcode::Sub | Opcode::Mul | Opcode::And | Opcode::Or | Opcode::Xor
        | Opcode::Neg | Opcode::Not | Opcode::Shl | Opcode::Shr | Opcode::Sar | Opcode::RotL
        | Opcode::RotR | Opcode::MulS2 | Opcode::MulU2 | Opcode::DivS2 | Opcode::DivU2
        | Opcode::AddCO | Opcode::AddCI | Opcode::AddCIO | Opcode::AddC1O | Opcode::SubBO
        | Opcode::SubBI | Opcode::SubBIO | Opcode::SubB1O | Opcode::AndC | Opcode::Clz | Opcode::Ctz
        | Opcode::CtPop)
}

fn is_mem(opc: Opcode) -> (r: bool)
    ensures
        r == is_mem_op(opc),
{
    matches!(opc, Opcode::Ld | Opcode::Ld8U | Opcode::Ld8S | Opcode::Ld16U | Opcode::Ld16S
        | Opcode::Ld32U | Opcode::Ld32S | Opcode::St | Opcode::St8 | Opcode::St16 | Opcode::St32
        | Opcode::QemuLd | Opcode::QemuSt)
}

fn is_misc(opc: Opcode) -> (r: bool)
    ensures
        r == is_misc_op(opc),
{
    matches!(opc, Opcode::ExtI32I64 | Opcode::ExtUI32I64 | Opcode::ExtrlI64I32 | Opcode::Extract2
        | Opcode::Bswap16 | Opcode::Bswap32 | Opcode::Bswap64 | Opcode::ExtrhI64I32 | Opcode::GotoPtr
        | Opcode::Call)
}

fn is_cond(opc: Opcode) -> (r: bool)
    ensures
        r == is_cond_op(opc),
{
    matches!(opc, Opcode::SetCond | Opcode::NegSetCond | Opcode::BrCond | Opcode::MovCond)
}

fn is_field(opc: Opcode) -> (r: bool)
    ensures
        r == is_field_op(opc),
{
    matches!(opc, Opcode::Extract | Opcode::SExtract | Opcode::Deposit)
}

#[verifier::spinoff_prover]
proof fn lemma_arith_len(op: Op, o: Seq<u8>, i: Seq<u8>)
    requires
        is_arith_op(op.opc),
    ensures
        out_arith(op, o, i).len() <= 16,
{
    broadcast use crate::backend::enc::group_enc_len;

}

#[verifier::spinoff_prover]
#[verifier::rlimit(100)]
proof fn lemma_mem_len(op: Op, o: Seq<u8>, i: Seq<u8>, c: Seq<u32>)
    requires
        is_mem_op(op.opc),
    ensures
        out_mem(op, o, i, c).len() <= 12,
{
    broadcast use crate::backend::enc::group_enc_len;

}

#[verifier::spinoff_prover]
proof fn lemma_misc_len(op: Op, o: Seq<u8>, i: Seq<u8>, c: Seq<u32>)
    requires
        is_misc_op(op.opc),
    ensures
        out_misc(op, o, i, c).len() <= 24,
{
    broadcast use crate::backend::enc::group_enc_len;

}

#[verifier::spinoff_prover]
#[verifier::rlimit(100)]
proof fn lemma_cond_len(labels: Seq<Label>, op: Op, o: Seq<u8>, i: Seq<u8>, c: Seq<u32>, at: int)
    ensures
        out_cond(labels, op, o, i, c, at) matches Some(b) ==> b.len() <= 32,
{
    if let Some(cond) = cond_of(c[0]) {
        let w = op.op_type == Type::I64;
        let x = X86Cond::spec_from_tcg(cond);
        let d = rg(o, 0);
        let a = rg(i, 0);
        let b = rg(i, 1);
        crate::backend::enc::lemma_enc_opc_len(
            crate::backend::emitter::arith_opc(crate::backend::emitter::OPC_ARITH_GVEV, ArithOp::Cmp, w),
            a.spec_num(),
            b.spec_num(),
            0,
        );
        crate::backend::enc::lemma_enc_opc_len(crate::backend::emitter::OPC_TESTL | (if w { P_REXW } else { 0 }), a.spec_num(), b.spec_num(), 0);
        assert(enc_compare(cond, w, a, b).len() <= 7);
        crate::backend::enc::lemma_enc_opc_len((crate::backend::emitter::OPC_SETCC + x.spec_code()) as u32, 0, d.spec_num(), 0);
        assert(enc_setcc(x, d).len() <= 7);
        crate::backend::enc::lemma_enc_opc_len(OPC_MOVZBL | P_REXB_RM, d.spec_num(), d.spec_num(), 0);
        assert(enc_movzx(OPC_MOVZBL | P_REXB_RM, d, d).len() <= 7);
        crate::backend::enc::lemma_enc_opc_len(crate::backend::emitter::OPC_GRP3_EV | (if w { P_REXW } else { 0 }), 3, d.spec_num(), 0);
        assert(enc_neg(w, d).len() <= 7);
        let xi = X86Cond::spec_from_code(x.spec_code() ^ 1u8);
        crate::backend::enc::lemma_enc_opc_len(((crate::backend::emitter::OPC_CMOVCC + xi.spec_code()) as u32) | (if w { P_REXW } else { 0 }), d.spec_num(), rg(i, 3).spec_num(), 0);
        assert(enc_cmovcc(xi, w, d, rg(i, 3)).len() <= 7);
        crate::backend::enc::lemma_enc_opc_len((OPC_JCC_LONG + x.spec_code()) as u32, 0, 0, 0);
    }
}

#[verifier::spinoff_prover]
proof fn lemma_field_len(op: Op, o: Seq<u8>, i: Seq<u8>, c: Seq<u32>)
    ensures
        out_field(op, o, i, c) matches Some(b) ==> b.len() <= 8,
{
    broadcast use crate::backend::enc::group_enc_len;

}

/// No op lowers to more than `MAX_OP_BYTES` bytes.
pub proof fn lemma_out_op_len(
    g: X86_64CodeGen,
    labels: Seq<Label>,
    tb: u32,
    op: Op,
    o: Seq<u8>,
    i: Seq<u8>,
    c: Seq<u32>,
    at: int,
)
    ensures
        g.out_op(labels, tb, op, o, i, c, at) matches Some(b) ==> b.len() <= MAX_OP_BYTES,
{
    broadcast use crate::backend::enc::group_enc_len;

    lemma_nop_seq_len(goto_tb_pad(at));
    if is_arith_op(op.opc) {
        lemma_arith_len(op, o, i);
    } else if is_mem_op(op.opc) {
        lemma_mem_len(op, o, i, c);
    } else if is_misc_op(op.opc) {
        lemma_misc_len(op, o, i, c);
    } else if is_cond_op(op.opc) {
        lemma_cond_len(labels, op, o, i, c, at);
    } else if is_field_op(op.opc) {
        lemma_field_len(op, o, i, c);
    }
}

/// The last two bytes of the host code for an IR op.
pub open spec fn code_tail(g: X86_64CodeGen, labels: Seq<Label>, tb: u32, op: Op, o: Seq<u8>, i: Seq<u8>, c: Seq<u32>, at: int) -> (u8, u8) {
    let b = g.out_op(labels, tb, op, o, i, c, at)->0;
    (b[b.len() - 2], b[b.len() - 1])
}

/// The host code for an IR shift or rotate by a register is the x86
/// shift-by-CL group opcode `D3`, with the output register in the ModR/M
/// R/M field and the operation in its REG field: 7 (SAR) for an arithmetic
/// right shift, 5 (SHR) for a logical one, 4 (SHL) for a left shift, 0
/// (ROL) and 1 (ROR) for the rotates. So its last two bytes are `D3` and
/// `F8`, `E8`, `E0`, `C0` or `C8` with the register's low bits.
pub proof fn law_shift_code(g: X86_64CodeGen, labels: Seq<Label>, tb: u32, op: Op, o: Seq<u8>, i: Seq<u8>, c: Seq<u32>, at: int)
    requires
        op.opc is Sar || op.opc is Shr || op.opc is Shl || op.opc is RotL || op.opc is RotR,
    ensures
        g.out_op(labels, tb, op, o, i, c, at) matches Some(b) && b.len() >= 2,
        code_tail(g, labels, tb, op, o, i, c, at).0 == 0xD3u8,
        op.opc is Sar ==> code_tail(g, labels, tb, op, o, i, c, at).1 == (0xF8u8 | rg(o, 0).spec_low3()),
        op.opc is Shr ==> code_tail(g, labels, tb, op, o, i, c, at).1 == (0xE8u8 | rg(o, 0).spec_low3()),
        op.opc is Shl ==> code_tail(g, labels, tb, op, o, i, c, at).1 == (0xE0u8 | rg(o, 0).spec_low3()),
        op.opc is RotL ==> code_tail(g, labels, tb, op, o, i, c, at).1 == (0xC0u8 | rg(o, 0).spec_low3()),
        op.opc is RotR ==> code_tail(g, labels, tb, op, o, i, c, at).1 == (0xC8u8 | rg(o, 0).spec_low3()),
{
    crate::backend::fold::lemma_shift_bits();
    let w = op.op_type == Type::I64;
    let opc = crate::backend::emitter::OPC_SHIFT_CL | crate::backend::emitter::wflag(w);
    let sop = if op.opc is Sar {
        ShiftOp::Sar
    } else if op.opc is Shr {
        ShiftOp::Shr
    } else if op.opc is Shl {
        ShiftOp::Shl
    } else if op.opc is RotL {
        ShiftOp::Rol
    } else {
        ShiftOp::Ror
    };
    let b = enc_shift_cl(sop, w, rg(o, 0));
    assert(g.out_op(labels, tb, op, o, i, c, at) == Some(b));
    let pre = crate::backend::enc::enc_opc(opc, sop.spec_code(), rg(o, 0).spec_num());
    assert(b == pre + seq![(0xC0u8 | (sop.spec_code() << 3u8)) | rg(o, 0).spec_low3()]);
    assert(pre[pre.len() - 1] == opc as u8);
    assert(opc as u8 == 0xD3u8);
}

/// The host code for an IR bitwise operation, negation, complement or
/// multiplication of registers ends with the x86 instruction of the same
/// meaning: the register forms `23` (AND), `0B` (OR), `33` (XOR) and
/// `0F AF` (IMUL), whose ModR/M byte names the output register in the REG
/// field and the second input in the R/M field; and the group-3 opcode `F7`
/// with the digit 3 (NEG) or 2 (NOT) on the output register.
pub proof fn law_logic_code(g: X86_64CodeGen, labels: Seq<Label>, tb: u32, op: Op, o: Seq<u8>, i: Seq<u8>, c: Seq<u32>, at: int)
    requires
        op.opc is And || op.opc is Or || op.opc is Xor || op.opc is Mul || op.opc is Neg || op.opc is Not,
    ensures
        g.out_op(labels, tb, op, o, i, c, at) matches Some(b) && b.len() >= 2,
        op.opc is And ==> code_tail(g, labels, tb, op, o, i, c, at).0 == 0x23u8,
        op.opc is Or ==> code_tail(g, labels, tb, op, o, i, c, at).0 == 0x0Bu8,
        op.opc is Xor ==> code_tail(g, labels, tb, op, o, i, c, at).0 == 0x33u8,
        op.opc is Mul ==> code_tail(g, labels, tb, op, o, i, c, at).0 == 0xAFu8,
        op.opc is And || op.opc is Or || op.opc is Xor || op.opc is Mul ==> code_tail(g, labels, tb, op, o, i, c, at).1
            == crate::backend::enc::modrm_rr(rg(o, 0).spec_low3(), rg(i, 1).spec_low3()),
        op.opc is Neg || op.opc is Not ==> code_tail(g, labels, tb, op, o, i, c, at).0 == 0xF7u8,
        op.opc is Neg ==> code_tail(g, labels, tb, op, o, i, c, at).1 == (0xD8u8 | rg(o, 0).spec_low3()),
        op.opc is Not ==> code_tail(g, labels, tb, op, o, i, c, at).1 == (0xD0u8 | rg(o, 0).spec_low3()),
{
    crate::backend::fold::lemma_shift_bits();
    let w = op.op_type == Type::I64;
    let wf = crate::backend::emitter::wflag(w);
    assert(wf == 0u32 || wf == 0x1000u32);
    if op.opc is And || op.opc is Or || op.opc is Xor {
        let aop = if op.opc is And {
            ArithOp::And
        } else if op.opc is Or {
            ArithOp::Or
        } else {
            ArithOp::Xor
        };
        let opc = crate::backend::emitter::arith_opc(crate::backend::emitter::OPC_ARITH_GVEV, aop, w);
        let b = enc_arith_rr(aop, w, rg(o, 0), rg(i, 1));
        assert(g.out_op(labels, tb, op, o, i, c, at) == Some(b));
        let pre = crate::backend::enc::enc_opc(opc, rg(o, 0).spec_num(), rg(i, 1).spec_num());
        assert(b == pre + seq![crate::backend::enc::modrm_rr(rg(o, 0).spec_low3(), rg(i, 1).spec_low3())]);
        assert(pre[pre.len() - 1] == opc as u8);
        if op.opc is And {
            assert(opc == (0x03u32 | (4u32 << 3u32)) | wf);
        } else if op.opc is Or {
            assert(opc == (0x03u32 | (1u32 << 3u32)) | wf);
        } else {
            assert(opc == (0x03u32 | (6u32 << 3u32)) | wf);
        }
    } else if op.opc is Mul {
        let opc = crate::backend::emitter::OPC_IMUL_GVEV | wf;
        let b = crate::backend::emitter::enc_imul_rr(w, rg(o, 0), rg(i, 1));
        assert(g.out_op(labels, tb, op, o, i, c, at) == Some(b));
        let pre = crate::backend::enc::enc_opc(opc, rg(o, 0).spec_num(), rg(i, 1).spec_num());
        assert(b == pre + seq![crate::backend::enc::modrm_rr(rg(o, 0).spec_low3(), rg(i, 1).spec_low3())]);
        assert(pre[pre.len() - 1] == opc as u8);
        assert(opc == (0xAFu32 | 0x100u32) | wf);
    } else {
        let e = if op.opc is Neg {
            crate::backend::emitter::Ext3Op::Neg
        } else {
            crate::backend::emitter::Ext3Op::Not
        };
        let opc = crate::backend::emitter::OPC_GRP3_EV | wf;
        let b = if op.opc is Neg {
            crate::backend::emitter::enc_neg(w, rg(o, 0))
        } else {
            crate::backend::emitter::enc_not(w, rg(o, 0))
        };
        assert(g.out_op(labels, tb, op, o, i, c, at) == Some(b));
        let pre = crate::backend::enc::enc_opc(opc, e.spec_code(), rg(o, 0).spec_num());
        assert(b == pre + seq![(0xC0u8 | (e.spec_code() << 3u8)) | rg(o, 0).spec_low3()]);
        assert(pre[pre.len() - 1] == opc as u8);
        assert(opc == 0xF7u32 | wf);
    }
}

/// The host code of a host-memory load or store is one x86 move between the
/// register and `[base + offset]`, with the opcode of the access's width and
/// extension (Intel SDM numbers; `0x100` marks the `0F` escape, `0x1000`
/// REX.W, `0x2000` a byte register, `0x400` the operand-size prefix): `8B`
/// MOV for a full load (REX.W for 64 bits) and, without REX.W, for a 32-bit load, `0F B6` /
/// `0F B7` MOVZX for the zero-extending byte and halfword loads, `0F BE` /
/// `0F BF` MOVSX for the sign-extending ones (REX.W for 64 bits), `63`
/// MOVSXD with REX.W for the sign-extending word load; `89` MOV for a full
/// or 32-bit store, `88` for a byte store and `66 89` for a halfword store.
pub proof fn law_host_mem_code(g: X86_64CodeGen, labels: Seq<Label>, tb: u32, op: Op, o: Seq<u8>, i: Seq<u8>, c: Seq<u32>, at: int)
    requires
        op.opc is Ld || op.opc is Ld8U || op.opc is Ld8S || op.opc is Ld16U || op.opc is Ld16S || op.opc is Ld32U
            || op.opc is Ld32S || op.opc is St || op.opc is St8 || op.opc is St16 || op.opc is St32,
    ensures
        op.opc is Ld ==> g.out_op(labels, tb, op, o, i, c, at) == Some(
            crate::backend::enc::enc_modrm_offset(0x8Bu32 | (if op.op_type == Type::I64 { 0x1000u32 } else { 0u32 }), rg(o, 0), rg(i, 0), c[0] as i32),
        ),
        op.opc is Ld8U ==> g.out_op(labels, tb, op, o, i, c, at) == Some(
            crate::backend::enc::enc_modrm_offset(0xB6u32 | 0x100u32, rg(o, 0), rg(i, 0), c[0] as i32),
        ),
        op.opc is Ld8S ==> g.out_op(labels, tb, op, o, i, c, at) == Some(
            crate::backend::enc::enc_modrm_offset((0xBEu32 | 0x100u32) | (if op.op_type == Type::I64 { 0x1000u32 } else { 0u32 }), rg(o, 0), rg(i, 0), c[0] as i32),
        ),
        op.opc is Ld16U ==> g.out_op(labels, tb, op, o, i, c, at) == Some(
            crate::backend::enc::enc_modrm_offset(0xB7u32 | 0x100u32, rg(o, 0), rg(i, 0), c[0] as i32),
        ),
        op.opc is Ld16S ==> g.out_op(labels, tb, op, o, i, c, at) == Some(
            crate::backend::enc::enc_modrm_offset((0xBFu32 | 0x100u32) | (if op.op_type == Type::I64 { 0x1000u32 } else { 0u32 }), rg(o, 0), rg(i, 0), c[0] as i32),
        ),
        op.opc is Ld32U ==> g.out_op(labels, tb, op, o, i, c, at) == Some(
            crate::backend::enc::enc_modrm_offset(0x8Bu32 | 0u32, rg(o, 0), rg(i, 0), c[0] as i32),
        ),
        op.opc is Ld32S ==> g.out_op(labels, tb, op, o, i, c, at) == Some(
            crate::backend::enc::enc_modrm_offset(0x63u32 | 0x1000u32, rg(o, 0), rg(i, 0), c[0] as i32),
        ),
        op.opc is St ==> g.out_op(labels, tb, op, o, i, c, at) == Some(
            crate::backend::enc::enc_modrm_offset(0x89u32 | (if op.op_type == Type::I64 { 0x1000u32 } else { 0u32 }), rg(i, 0), rg(i, 1), c[0] as i32),
        ),
        op.opc is St8 ==> g.out_op(labels, tb, op, o, i, c, at) == Some(
            crate::backend::enc::enc_modrm_offset(0x88u32 | 0x2000u32, rg(i, 0), rg(i, 1), c[0] as i32),
        ),
        op.opc is St16 ==> g.out_op(labels, tb, op, o, i, c, at) == Some(
            crate::backend::enc::enc_modrm_offset(0x400u32 | 0x89u32, rg(i, 0), rg(i, 1), c[0] as i32),
        ),
        op.opc is St32 ==> g.out_op(labels, tb, op, o, i, c, at) == Some(
            crate::backend::enc::enc_modrm_offset(0x89u32 | 0u32, rg(i, 0), rg(i, 1), c[0] as i32),
        ),
{
}

/// A conditional move keeps its first value operand when the condition
/// holds and takes the second otherwise: after the comparison it is the
/// CMOV on the inverse of the IR condition (for every condition that
/// compares), which moves the second operand into the output exactly when
/// the condition fails.
pub proof fn law_movcond_code(g: X86_64CodeGen, labels: Seq<Label>, tb: u32, op: Op, o: Seq<u8>, i: Seq<u8>, c: Seq<u32>, at: int)
    requires
        op.opc is MovCond,
    ensures
        forall|t: Cond|
            #![trigger X86Cond::spec_from_tcg(t.spec_invert())]
            cond_of(c[0]) == Some(t) && !(t is Always) && !(t is Never) ==> g.out_op(labels, tb, op, o, i, c, at) == Some(
                enc_compare(t, op.op_type == Type::I64, rg(i, 0), rg(i, 1)) + crate::backend::emitter::enc_cmovcc(
                    X86Cond::spec_from_tcg(t.spec_invert()),
                    op.op_type == Type::I64,
                    rg(o, 0),
                    rg(i, 3),
                ),
            ),
{
    assert forall|t: Cond|
        #![trigger X86Cond::spec_from_tcg(t.spec_invert())]
        cond_of(c[0]) == Some(t) && !(t is Always) && !(t is Never) implies g.out_op(labels, tb, op, o, i, c, at) == Some(
            enc_compare(t, op.op_type == Type::I64, rg(i, 0), rg(i, 1)) + crate::backend::emitter::enc_cmovcc(
                X86Cond::spec_from_tcg(t.spec_invert()),
                op.op_type == Type::I64,
                rg(o, 0),
                rg(i, 3),
            ),
        ) by {
        crate::backend::emitter::lemma_x86cond_invert(X86Cond::spec_from_tcg(t), t);
    }
}

} // verus!
