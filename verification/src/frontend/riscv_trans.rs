use vstd::prelude::*;

use crate::context::Context;
use crate::frontend::emit::{
    adds, constant, emitted, emit_binop, emit_brcond, emit_call, emit_divs2, emit_divu2, emit_ld, emit_ext_u32_i64, emit_mb, emit_movcond, emit_neg, emit_not, emit_st, emit_exit_tb, emit_ext_i32_i64, emit_extrl_i64_i32,
    emit_mov, emit_muls2, emit_mulu2, emit_qemu_ld, emit_qemu_st, emit_set_label, emit_setcond, fresh_temp,
    grown, label, lemma_adds_len, lemma_begin, lemma_out_shift, out2_temp, out_temp, room, spent, step_quiet, temp, BinOp, OpShape,
};
use crate::frontend::riscv_args::{is_reg, ArgsAtomic, ArgsAutoFence, ArgsB, ArgsEmpty, ArgsI, ArgsJ, ArgsR, ArgsS, ArgsShift, ArgsU};
use crate::frontend::emit::builds;
use crate::frontend::DisasJumpType;
use crate::ir_builder::spec_carg;
use crate::types::{Cond, MemOp};
use crate::frontend::riscv_args::ArgsCsr;
use crate::frontend::riscv_cpu::{
    FFLAGS_OFFSET, FRM_OFFSET, UCAUSE_OFFSET, UEPC_OFFSET, UIE_OFFSET, UIP_OFFSET, USCRATCH_OFFSET,
    USTATUS_FS_DIRTY, USTATUS_FS_MASK, USTATUS_OFFSET, UTVAL_OFFSET, UTVEC_OFFSET,
};
use crate::frontend::riscv_fpu::{FFLAGS_MASK, FRM_MASK};
use crate::frontend::riscv_cpu::{fpr_offset, NUM_GPRS};
use crate::frontend::riscv_args::{ArgsR2, ArgsR2Rm, ArgsR4Rm, ArgsRRm};
use crate::frontend::riscv_disas::RiscvDisasContext;
use crate::frontend::{DisasContextBase};
use crate::opcode::Opcode;
use crate::temp::TempIdx;
use crate::types::Type;

verus! {

/// The constant temp that `f` holds for `v` of type `ty`.
pub open spec fn cst(f: Context, ty: Type, v: u64) -> TempIdx {
    f.const_of(ty, v)->0
}

/// `f` holds a constant temp for `v` of type `ty`.
pub open spec fn has_cst(f: Context, ty: Type, v: u64) -> bool {
    f.const_of(ty, v) is Some
}

/// The constant argument that carries a memory-operation descriptor.
pub open spec fn memarg(m: MemOp) -> TempIdx {
    spec_carg(m.0 as u32)
}

/// The exit value argument `v`.
pub open spec fn exit_arg(v: u64) -> TempIdx {
    spec_carg(v as u32)
}

/// `a` and `b` are fresh temps of type `ty`, `a` made first.
pub open spec fn fresh2(o: Context, f: Context, a: TempIdx, b: TempIdx, ty: Type) -> bool {
    fresh_temp(o, f, a, ty) && fresh_temp(o, f, b, ty) && a.0 < b.0
}

impl RiscvDisasContext {
    /// The ops of `rd = rs1 op rs2` computed into the fresh temp `d`.
    pub open spec fn arith_ops(self, f: Context, a: ArgsR, opc: Opcode, d: TempIdx) -> Seq<OpShape> {
        seq![(opc, Type::I64, seq![d, self.src(f, a.rs1), self.src(f, a.rs2)])] + self.set_gpr_ops(a.rd, d)
    }

    /// From `o` to `f` the IR gained `rd = rs1 op rs2` (for a caller that started at `g`).
    pub open spec fn arith_effect(self, g: Context, o: Context, f: Context, a: ArgsR, opc: Opcode) -> bool {
        &&& adds(g, o, f, self.arith_ops(f, a, opc, out_temp(o, f, 0)))
        &&& fresh_temp(o, f, out_temp(o, f, 0), Type::I64)
        &&& self.src_ok(f, a.rs1)
        &&& self.src_ok(f, a.rs2)
        &&& f.labels_view().len() == o.labels_view().len()
    }

    /// Read GPR `idx`; x0 reads as the constant zero.
    fn gpr_or_zero(&self, ir: &mut Context, g: Ghost<Context>, idx: i64) -> (t: TempIdx)
        requires
            grown(g@, *old(ir)),
            room(*old(ir), 1),
            is_reg(idx),
        ensures
            step_quiet(g@, *old(ir), *final(ir)),
            final(ir).labels_view().len() == old(ir).labels_view().len(),
            t == self.src(*final(ir), idx),
            self.src_ok(*final(ir), idx),
    {
        if idx == 0 {
            constant(ir, g, Type::I64, 0)
        } else {
            proof {
                lemma_begin(*ir);
            }
            self.gpr[idx as usize]
        }
    }

    /// Write `val` into GPR `rd`; writes to x0 are dropped.
    fn gen_set_gpr(&self, ir: &mut Context, g: Ghost<Context>, rd: i64, val: TempIdx)
        requires
            grown(g@, *old(ir)),
            room(*old(ir), 1),
            is_reg(rd),
        ensures
            adds(g@, *old(ir), *final(ir), self.set_gpr_ops(rd, val)),
            spent(*old(ir), *final(ir), 1),
            final(ir).temps_view().len() == old(ir).temps_view().len(),
            final(ir).labels_view().len() == old(ir).labels_view().len(),
    {
        let ghost o = *ir;
        if rd != 0 {
            emit_mov(ir, g, Type::I64, self.gpr[rd as usize], val);
        } else {
            proof {
                lemma_begin(*ir);
            }
        }
        assert(emitted(g@, *ir) =~= emitted(g@, o) + self.set_gpr_ops(rd, val));
    }

    /// Write the sign extension of the 32-bit `val` into GPR `rd`.
    fn gen_set_gpr_sx32(&self, ir: &mut Context, g: Ghost<Context>, rd: i64, val: TempIdx)
        requires
            grown(g@, *old(ir)),
            room(*old(ir), 1),
            is_reg(rd),
        ensures
            adds(g@, *old(ir), *final(ir), self.set_gpr_sx32_ops(rd, val)),
            spent(*old(ir), *final(ir), 1),
            final(ir).temps_view().len() == old(ir).temps_view().len(),
            final(ir).labels_view().len() == old(ir).labels_view().len(),
    {
        let ghost o = *ir;
        if rd != 0 {
            emit_ext_i32_i64(ir, g, self.gpr[rd as usize], val);
        } else {
            proof {
                lemma_begin(*ir);
            }
        }
        assert(emitted(g@, *ir) =~= emitted(g@, o) + self.set_gpr_sx32_ops(rd, val));
    }

    /// R-type ALU: `rd = rs1 op rs2`.
    fn gen_arith(&self, ir: &mut Context, g: Ghost<Context>, a: &ArgsR, op: BinOp) -> (ok: bool)
        requires
            grown(g@, *old(ir)),
            room(*old(ir), 8),
            a.valid(),
        ensures
            ok,
            self.arith_effect(g@, *old(ir), *final(ir), *a, op.opcode()),
            spent(*old(ir), *final(ir), 4),
    {
        let ghost o = *ir;
        let s1 = self.gpr_or_zero(ir, g, a.rs1);
        let s2 = self.gpr_or_zero(ir, g, a.rs2);
        let d = temp(ir, g, Type::I64);
        emit_binop(ir, g, op, Type::I64, d, s1, s2);
        self.gen_set_gpr(ir, g, a.rd, d);
        assert(emitted(g@, *ir) =~= emitted(g@, o) + self.arith_ops(*ir, *a, op.opcode(), out_temp(o, *ir, 0)));
        true
    }
}

impl RiscvDisasContext {
    /// The ops of `rd = rs1 op sext(imm)` computed into `d`.
    pub open spec fn imm_ops(self, f: Context, a: ArgsI, opc: Opcode, d: TempIdx) -> Seq<OpShape> {
        seq![(opc, Type::I64, seq![d, self.src(f, a.rs1), cst(f, Type::I64, a.imm as u64)])] + self.set_gpr_ops(a.rd, d)
    }

    /// From `o` to `f` the IR gained `rd = rs1 op sext(imm)` (for a caller that started at `g`).
    pub open spec fn imm_effect(self, g: Context, o: Context, f: Context, a: ArgsI, opc: Opcode) -> bool {
        &&& adds(g, o, f, self.imm_ops(f, a, opc, out_temp(o, f, 0)))
        &&& fresh_temp(o, f, out_temp(o, f, 0), Type::I64)
        &&& self.src_ok(f, a.rs1)
        &&& has_cst(f, Type::I64, a.imm as u64)
        &&& f.labels_view().len() == o.labels_view().len()
    }

    /// The ops of `rd = (rs1 cond rs2)` computed into `d`.
    pub open spec fn setcond_rr_ops(self, f: Context, a: ArgsR, cond: Cond, d: TempIdx) -> Seq<OpShape> {
        seq![(Opcode::SetCond, Type::I64, seq![d, self.src(f, a.rs1), self.src(f, a.rs2), spec_carg(cond.spec_code())])]
            + self.set_gpr_ops(a.rd, d)
    }

    /// From `o` to `f` the IR gained `rd = (rs1 cond rs2)`.
    pub open spec fn setcond_rr_effect(self, g: Context, o: Context, f: Context, a: ArgsR, cond: Cond) -> bool {
        &&& adds(g, o, f, self.setcond_rr_ops(f, a, cond, out_temp(o, f, 0)))
        &&& fresh_temp(o, f, out_temp(o, f, 0), Type::I64)
        &&& self.src_ok(f, a.rs1)
        &&& self.src_ok(f, a.rs2)
        &&& f.labels_view().len() == o.labels_view().len()
    }

    /// The ops of `rd = (rs1 cond sext(imm))` computed into `d`.
    pub open spec fn setcond_imm_ops(self, f: Context, a: ArgsI, cond: Cond, d: TempIdx) -> Seq<OpShape> {
        seq![(Opcode::SetCond, Type::I64, seq![d, self.src(f, a.rs1), cst(f, Type::I64, a.imm as u64), spec_carg(cond.spec_code())])]
            + self.set_gpr_ops(a.rd, d)
    }

    /// From `o` to `f` the IR gained `rd = (rs1 cond sext(imm))`.
    pub open spec fn setcond_imm_effect(self, g: Context, o: Context, f: Context, a: ArgsI, cond: Cond) -> bool {
        &&& adds(g, o, f, self.setcond_imm_ops(f, a, cond, out_temp(o, f, 0)))
        &&& fresh_temp(o, f, out_temp(o, f, 0), Type::I64)
        &&& self.src_ok(f, a.rs1)
        &&& has_cst(f, Type::I64, a.imm as u64)
        &&& f.labels_view().len() == o.labels_view().len()
    }

    /// The ops of `rd = rs1 op shamt` computed into `d`.
    pub open spec fn shift_imm_ops(self, f: Context, a: ArgsShift, opc: Opcode, d: TempIdx) -> Seq<OpShape> {
        seq![(opc, Type::I64, seq![d, self.src(f, a.rs1), cst(f, Type::I64, a.shamt as u64)])] + self.set_gpr_ops(a.rd, d)
    }

    /// From `o` to `f` the IR gained `rd = rs1 op shamt`.
    pub open spec fn shift_imm_effect(self, g: Context, o: Context, f: Context, a: ArgsShift, opc: Opcode) -> bool {
        &&& adds(g, o, f, self.shift_imm_ops(f, a, opc, out_temp(o, f, 0)))
        &&& fresh_temp(o, f, out_temp(o, f, 0), Type::I64)
        &&& self.src_ok(f, a.rs1)
        &&& has_cst(f, Type::I64, a.shamt as u64)
        &&& f.labels_view().len() == o.labels_view().len()
    }

    /// The ops of `rd = sext32(rs1 op rs2)` computed into `d`.
    pub open spec fn arith_w_ops(self, f: Context, a: ArgsR, opc: Opcode, d: TempIdx) -> Seq<OpShape> {
        seq![(opc, Type::I64, seq![d, self.src(f, a.rs1), self.src(f, a.rs2)])] + self.set_gpr_sx32_ops(a.rd, d)
    }

    /// From `o` to `f` the IR gained `rd = sext32(rs1 op rs2)`.
    pub open spec fn arith_w_effect(self, g: Context, o: Context, f: Context, a: ArgsR, opc: Opcode) -> bool {
        &&& adds(g, o, f, self.arith_w_ops(f, a, opc, out_temp(o, f, 0)))
        &&& fresh_temp(o, f, out_temp(o, f, 0), Type::I64)
        &&& self.src_ok(f, a.rs1)
        &&& self.src_ok(f, a.rs2)
        &&& f.labels_view().len() == o.labels_view().len()
    }

    /// The ops of `rd = sext32(rs1 op sext(imm))` computed into `d`.
    pub open spec fn imm_w_ops(self, f: Context, a: ArgsI, opc: Opcode, d: TempIdx) -> Seq<OpShape> {
        seq![(opc, Type::I64, seq![d, self.src(f, a.rs1), cst(f, Type::I64, a.imm as u64)])] + self.set_gpr_sx32_ops(a.rd, d)
    }

    /// From `o` to `f` the IR gained `rd = sext32(rs1 op sext(imm))`.
    pub open spec fn imm_w_effect(self, g: Context, o: Context, f: Context, a: ArgsI, opc: Opcode) -> bool {
        &&& adds(g, o, f, self.imm_w_ops(f, a, opc, out_temp(o, f, 0)))
        &&& fresh_temp(o, f, out_temp(o, f, 0), Type::I64)
        &&& self.src_ok(f, a.rs1)
        &&& has_cst(f, Type::I64, a.imm as u64)
        &&& f.labels_view().len() == o.labels_view().len()
    }

    /// The ops of the 32-bit shift `rd = sext32(lo32(rs1) op lo32(rs2))`.
    pub open spec fn shiftw_ops(self, f: Context, a: ArgsR, opc: Opcode, a32: TempIdx, b32: TempIdx, d32: TempIdx) -> Seq<OpShape> {
        seq![
            (Opcode::ExtrlI64I32, Type::I32, seq![a32, self.src(f, a.rs1)]),
            (Opcode::ExtrlI64I32, Type::I32, seq![b32, self.src(f, a.rs2)]),
            (opc, Type::I32, seq![d32, a32, b32]),
        ] + self.set_gpr_sx32_ops(a.rd, d32)
    }

    /// From `o` to `f` the IR gained the 32-bit shift `rd = sext32(lo32(rs1) op lo32(rs2))`.
    pub open spec fn shiftw_effect(self, g: Context, o: Context, f: Context, a: ArgsR, opc: Opcode) -> bool {
        &&& adds(g, o, f, self.shiftw_ops(f, a, opc, out_temp(o, f, 0), out_temp(o, f, 1), out_temp(o, f, 2)))
        &&& fresh2(o, f, out_temp(o, f, 0), out_temp(o, f, 1), Type::I32)
        &&& fresh2(o, f, out_temp(o, f, 1), out_temp(o, f, 2), Type::I32)
        &&& self.src_ok(f, a.rs1)
        &&& self.src_ok(f, a.rs2)
        &&& f.labels_view().len() == o.labels_view().len()
    }

    /// The ops of the 32-bit shift `rd = sext32(lo32(rs1) op shamt)`.
    pub open spec fn shift_imm_w_ops(self, f: Context, a: ArgsShift, opc: Opcode, s32: TempIdx, d32: TempIdx) -> Seq<OpShape> {
        seq![
            (Opcode::ExtrlI64I32, Type::I32, seq![s32, self.src(f, a.rs1)]),
            (opc, Type::I32, seq![d32, s32, cst(f, Type::I32, a.shamt as u64)]),
        ] + self.set_gpr_sx32_ops(a.rd, d32)
    }

    /// From `o` to `f` the IR gained the 32-bit shift `rd = sext32(lo32(rs1) op shamt)`.
    pub open spec fn shift_imm_w_effect(self, g: Context, o: Context, f: Context, a: ArgsShift, opc: Opcode) -> bool {
        &&& adds(g, o, f, self.shift_imm_w_ops(f, a, opc, out_temp(o, f, 0), out_temp(o, f, 1)))
        &&& fresh2(o, f, out_temp(o, f, 0), out_temp(o, f, 1), Type::I32)
        &&& self.src_ok(f, a.rs1)
        &&& has_cst(f, Type::I32, a.shamt as u64)
        &&& f.labels_view().len() == o.labels_view().len()
    }

    /// The ops that form the address `rs1 + imm`: an add into `t`, or none
    /// when `imm` is zero.
    pub open spec fn addr_ops(self, f: Context, rs1: i64, imm: i64, t: TempIdx) -> Seq<OpShape> {
        if imm != 0 {
            seq![(Opcode::Add, Type::I64, seq![t, self.src(f, rs1), cst(f, Type::I64, imm as u64)])]
        } else {
            seq![]
        }
    }

    /// The temp that holds the address `rs1 + imm` once `addr_ops` ran with `t`.
    pub open spec fn addr_of(self, f: Context, rs1: i64, imm: i64, t: TempIdx) -> TempIdx {
        if imm != 0 {
            t
        } else {
            self.src(f, rs1)
        }
    }

    /// From `o` to `f` the IR gained the address `rs1 + imm`, in temp `t`.
    pub open spec fn addr_effect(self, g: Context, o: Context, f: Context, rs1: i64, imm: i64, t: TempIdx) -> bool {
        &&& adds(g, o, f, self.addr_ops(f, rs1, imm, out_temp(o, f, 0)))
        &&& t == self.addr_of(f, rs1, imm, out_temp(o, f, 0))
        &&& imm != 0 ==> fresh_temp(o, f, out_temp(o, f, 0), Type::I64) && has_cst(f, Type::I64, imm as u64)
        &&& self.src_ok(f, rs1)
        &&& f.labels_view().len() == o.labels_view().len()
    }

    /// Number of ops that form an address with offset `imm`.
    pub open spec fn addr_len(imm: i64) -> int {
        if imm != 0 {
            1
        } else {
            0
        }
    }

    /// The ops of the guest load `rd = mem[rs1 + imm]`.
    pub open spec fn load_ops(self, o: Context, f: Context, a: ArgsI, memop: MemOp) -> Seq<OpShape> {
        let k = Self::addr_len(a.imm);
        let d = out_temp(o, f, k);
        self.addr_ops(f, a.rs1, a.imm, out_temp(o, f, 0)) + seq![
            (Opcode::QemuLd, Type::I64, seq![d, self.addr_of(f, a.rs1, a.imm, out_temp(o, f, 0)), memarg(memop)]),
        ] + self.set_gpr_ops(a.rd, d)
    }

    /// From `o` to `f` the IR gained the guest load `rd = mem[rs1 + imm]`.
    pub open spec fn load_effect(self, g: Context, o: Context, f: Context, a: ArgsI, memop: MemOp) -> bool {
        &&& adds(g, o, f, self.load_ops(o, f, a, memop))
        &&& fresh_temp(o, f, out_temp(o, f, Self::addr_len(a.imm)), Type::I64)
        &&& a.imm != 0 ==> fresh2(o, f, out_temp(o, f, 0), out_temp(o, f, 1), Type::I64) && has_cst(f, Type::I64, a.imm as u64)
        &&& self.src_ok(f, a.rs1)
        &&& f.labels_view().len() == o.labels_view().len()
    }

    /// The ops of the guest store `mem[rs1 + imm] = rs2`.
    pub open spec fn store_ops(self, o: Context, f: Context, a: ArgsS, memop: MemOp) -> Seq<OpShape> {
        self.addr_ops(f, a.rs1, a.imm, out_temp(o, f, 0)) + seq![
            (Opcode::QemuSt, Type::I64, seq![self.src(f, a.rs2), self.addr_of(f, a.rs1, a.imm, out_temp(o, f, 0)), memarg(memop)]),
        ]
    }

    /// From `o` to `f` the IR gained the guest store `mem[rs1 + imm] = rs2`.
    pub open spec fn store_effect(self, g: Context, o: Context, f: Context, a: ArgsS, memop: MemOp) -> bool {
        &&& adds(g, o, f, self.store_ops(o, f, a, memop))
        &&& a.imm != 0 ==> fresh_temp(o, f, out_temp(o, f, 0), Type::I64) && has_cst(f, Type::I64, a.imm as u64)
        &&& self.src_ok(f, a.rs1)
        &&& self.src_ok(f, a.rs2)
        &&& f.labels_view().len() == o.labels_view().len()
    }

    /// The address `rs1 + imm` for a guest memory access.
    fn gen_addr(&self, ir: &mut Context, g: Ghost<Context>, rs1: i64, imm: i64) -> (t: TempIdx)
        requires
            grown(g@, *old(ir)),
            room(*old(ir), 4),
            is_reg(rs1),
        ensures
            self.addr_effect(g@, *old(ir), *final(ir), rs1, imm, t),
            spent(*old(ir), *final(ir), 3),
    {
        let ghost o = *ir;
        let base = self.gpr_or_zero(ir, g, rs1);
        let addr = if imm != 0 {
            let c = constant(ir, g, Type::I64, imm as u64);
            let t = temp(ir, g, Type::I64);
            emit_binop(ir, g, BinOp::Add, Type::I64, t, base, c);
            t
        } else {
            base
        };
        assert(emitted(g@, *ir) =~= emitted(g@, o) + self.addr_ops(*ir, rs1, imm, out_temp(o, *ir, 0)));
        addr
    }

    /// Guest load: `rd = mem[rs1 + imm]`.
    fn gen_load(&self, ir: &mut Context, g: Ghost<Context>, a: &ArgsI, memop: MemOp) -> (ok: bool)
        requires
            grown(g@, *old(ir)),
            room(*old(ir), 8),
            a.valid(),
        ensures
            ok,
            self.load_effect(g@, *old(ir), *final(ir), *a, memop),
            spent(*old(ir), *final(ir), 6),
    {
        let ghost o = *ir;
        let addr = self.gen_addr(ir, g, a.rs1, a.imm);
        let ghost m = *ir;
        let dst = temp(ir, g, Type::I64);
        emit_qemu_ld(ir, g, Type::I64, dst, addr, memop.bits() as u32);
        self.gen_set_gpr(ir, g, a.rd, dst);
        assert(a.imm != 0 ==> out_temp(o, *ir, 0) == out_temp(o, m, 0));
        assert(emitted(g@, *ir) =~= emitted(g@, o) + self.load_ops(o, *ir, *a, memop));
        true
    }

    /// Guest store: `mem[rs1 + imm] = rs2`.
    fn gen_store(&self, ir: &mut Context, g: Ghost<Context>, a: &ArgsS, memop: MemOp) -> (ok: bool)
        requires
            grown(g@, *old(ir)),
            room(*old(ir), 8),
            a.valid(),
        ensures
            ok,
            self.store_effect(g@, *old(ir), *final(ir), *a, memop),
            spent(*old(ir), *final(ir), 6),
    {
        let ghost o = *ir;
        let addr = self.gen_addr(ir, g, a.rs1, a.imm);
        let ghost m = *ir;
        let val = self.gpr_or_zero(ir, g, a.rs2);
        let ghost m1 = *ir;
        emit_qemu_st(ir, g, Type::I64, val, addr, memop.bits() as u32);
        if a.imm != 0 {
            assert(emitted(g@, m).len() == emitted(g@, o).len() + 1);
            assert(m.ops_view().len() == o.ops_view().len() + 1);
            assert(m1.ops_view()[o.ops_view().len() as int] == m.ops_view()[o.ops_view().len() as int]);
            assert(ir.ops_view()[o.ops_view().len() as int] == m1.ops_view()[o.ops_view().len() as int]);
        }
        assert(emitted(g@, *ir) =~= emitted(g@, o) + self.store_ops(o, *ir, *a, memop));
        true
    }

    /// R-type set-on-condition: `rd = (rs1 cond rs2) ? 1 : 0`.
    fn gen_setcond_rr(&self, ir: &mut Context, g: Ghost<Context>, a: &ArgsR, cond: Cond) -> (ok: bool)
        requires
            grown(g@, *old(ir)),
            room(*old(ir), 8),
            a.valid(),
        ensures
            ok,
            self.setcond_rr_effect(g@, *old(ir), *final(ir), *a, cond),
            spent(*old(ir), *final(ir), 4),
    {
        let ghost o = *ir;
        let s1 = self.gpr_or_zero(ir, g, a.rs1);
        let s2 = self.gpr_or_zero(ir, g, a.rs2);
        let d = temp(ir, g, Type::I64);
        emit_setcond(ir, g, Type::I64, d, s1, s2, cond);
        self.gen_set_gpr(ir, g, a.rd, d);
        assert(emitted(g@, *ir) =~= emitted(g@, o) + self.setcond_rr_ops(*ir, *a, cond, out_temp(o, *ir, 0)));
        true
    }

    /// I-type ALU: `rd = rs1 op sext(imm)`.
    fn gen_arith_imm(&self, ir: &mut Context, g: Ghost<Context>, a: &ArgsI, op: BinOp) -> (ok: bool)
        requires
            grown(g@, *old(ir)),
            room(*old(ir), 8),
            a.valid(),
        ensures
            ok,
            self.imm_effect(g@, *old(ir), *final(ir), *a, op.opcode()),
            spent(*old(ir), *final(ir), 4),
    {
        let ghost o = *ir;
        let src = self.gpr_or_zero(ir, g, a.rs1);
        let imm = constant(ir, g, Type::I64, a.imm as u64);
        let d = temp(ir, g, Type::I64);
        emit_binop(ir, g, op, Type::I64, d, src, imm);
        self.gen_set_gpr(ir, g, a.rd, d);
        assert(emitted(g@, *ir) =~= emitted(g@, o) + self.imm_ops(*ir, *a, op.opcode(), out_temp(o, *ir, 0)));
        true
    }

    /// I-type set-on-condition: `rd = (rs1 cond sext(imm)) ? 1 : 0`.
    fn gen_setcond_imm(&self, ir: &mut Context, g: Ghost<Context>, a: &ArgsI, cond: Cond) -> (ok: bool)
        requires
            grown(g@, *old(ir)),
            room(*old(ir), 8),
            a.valid(),
        ensures
            ok,
            self.setcond_imm_effect(g@, *old(ir), *final(ir), *a, cond),
            spent(*old(ir), *final(ir), 4),
    {
        let ghost o = *ir;
        let src = self.gpr_or_zero(ir, g, a.rs1);
        let imm = constant(ir, g, Type::I64, a.imm as u64);
        let d = temp(ir, g, Type::I64);
        emit_setcond(ir, g, Type::I64, d, src, imm, cond);
        self.gen_set_gpr(ir, g, a.rd, d);
        assert(emitted(g@, *ir) =~= emitted(g@, o) + self.setcond_imm_ops(*ir, *a, cond, out_temp(o, *ir, 0)));
        true
    }

    /// Shift by immediate: `rd = rs1 op shamt`.
    fn gen_shift_imm(&self, ir: &mut Context, g: Ghost<Context>, a: &ArgsShift, op: BinOp) -> (ok: bool)
        requires
            grown(g@, *old(ir)),
            room(*old(ir), 8),
            a.valid(),
        ensures
            ok,
            self.shift_imm_effect(g@, *old(ir), *final(ir), *a, op.opcode()),
            spent(*old(ir), *final(ir), 4),
    {
        let ghost o = *ir;
        let src = self.gpr_or_zero(ir, g, a.rs1);
        let sh = constant(ir, g, Type::I64, a.shamt as u64);
        let d = temp(ir, g, Type::I64);
        emit_binop(ir, g, op, Type::I64, d, src, sh);
        self.gen_set_gpr(ir, g, a.rd, d);
        assert(emitted(g@, *ir) =~= emitted(g@, o) + self.shift_imm_ops(*ir, *a, op.opcode(), out_temp(o, *ir, 0)));
        true
    }

    /// R-type word op: `rd = sext32(rs1 op rs2)`.
    fn gen_arith_w(&self, ir: &mut Context, g: Ghost<Context>, a: &ArgsR, op: BinOp) -> (ok: bool)
        requires
            grown(g@, *old(ir)),
            room(*old(ir), 8),
            a.valid(),
        ensures
            ok,
            self.arith_w_effect(g@, *old(ir), *final(ir), *a, op.opcode()),
            spent(*old(ir), *final(ir), 4),
    {
        let ghost o = *ir;
        let s1 = self.gpr_or_zero(ir, g, a.rs1);
        let s2 = self.gpr_or_zero(ir, g, a.rs2);
        let d = temp(ir, g, Type::I64);
        emit_binop(ir, g, op, Type::I64, d, s1, s2);
        self.gen_set_gpr_sx32(ir, g, a.rd, d);
        assert(emitted(g@, *ir) =~= emitted(g@, o) + self.arith_w_ops(*ir, *a, op.opcode(), out_temp(o, *ir, 0)));
        true
    }

    /// I-type word op: `rd = sext32(rs1 op sext(imm))`.
    fn gen_arith_imm_w(&self, ir: &mut Context, g: Ghost<Context>, a: &ArgsI, op: BinOp) -> (ok: bool)
        requires
            grown(g@, *old(ir)),
            room(*old(ir), 8),
            a.valid(),
        ensures
            ok,
            self.imm_w_effect(g@, *old(ir), *final(ir), *a, op.opcode()),
            spent(*old(ir), *final(ir), 4),
    {
        let ghost o = *ir;
        let src = self.gpr_or_zero(ir, g, a.rs1);
        let imm = constant(ir, g, Type::I64, a.imm as u64);
        let d = temp(ir, g, Type::I64);
        emit_binop(ir, g, op, Type::I64, d, src, imm);
        self.gen_set_gpr_sx32(ir, g, a.rd, d);
        assert(emitted(g@, *ir) =~= emitted(g@, o) + self.imm_w_ops(*ir, *a, op.opcode(), out_temp(o, *ir, 0)));
        true
    }

    /// Word shift by register: truncate both to 32 bits, shift, sign-extend.
    fn gen_shiftw(&self, ir: &mut Context, g: Ghost<Context>, a: &ArgsR, op: BinOp) -> (ok: bool)
        requires
            grown(g@, *old(ir)),
            room(*old(ir), 10),
            a.valid(),
        ensures
            ok,
            self.shiftw_effect(g@, *old(ir), *final(ir), *a, op.opcode()),
            spent(*old(ir), *final(ir), 6),
    {
        let ghost o = *ir;
        let s1 = self.gpr_or_zero(ir, g, a.rs1);
        let s2 = self.gpr_or_zero(ir, g, a.rs2);
        let a32 = temp(ir, g, Type::I32);
        emit_extrl_i64_i32(ir, g, a32, s1);
        let b32 = temp(ir, g, Type::I32);
        emit_extrl_i64_i32(ir, g, b32, s2);
        let d32 = temp(ir, g, Type::I32);
        emit_binop(ir, g, op, Type::I32, d32, a32, b32);
        self.gen_set_gpr_sx32(ir, g, a.rd, d32);
        assert(emitted(g@, *ir) =~= emitted(g@, o) + self.shiftw_ops(
            *ir,
            *a,
            op.opcode(),
            out_temp(o, *ir, 0),
            out_temp(o, *ir, 1),
            out_temp(o, *ir, 2),
        ));
        true
    }

    /// Word shift by immediate: truncate to 32 bits, shift, sign-extend.
    fn gen_shift_imm_w(&self, ir: &mut Context, g: Ghost<Context>, a: &ArgsShift, op: BinOp) -> (ok: bool)
        requires
            grown(g@, *old(ir)),
            room(*old(ir), 8),
            a.valid(),
        ensures
            ok,
            self.shift_imm_w_effect(g@, *old(ir), *final(ir), *a, op.opcode()),
            spent(*old(ir), *final(ir), 6),
    {
        let ghost o = *ir;
        let src = self.gpr_or_zero(ir, g, a.rs1);
        let s32 = temp(ir, g, Type::I32);
        emit_extrl_i64_i32(ir, g, s32, src);
        let sh = constant(ir, g, Type::I32, a.shamt as u64);
        let d32 = temp(ir, g, Type::I32);
        emit_binop(ir, g, op, Type::I32, d32, s32, sh);
        self.gen_set_gpr_sx32(ir, g, a.rd, d32);
        assert(emitted(g@, *ir) =~= emitted(g@, o) + self.shift_imm_w_ops(
            *ir,
            *a,
            op.opcode(),
            out_temp(o, *ir, 0),
            out_temp(o, *ir, 1),
        ));
        true
    }
}

impl RiscvDisasContext {
    /// `lb rd, imm(rs1)`.
    pub fn trans_lb(&mut self, ir: &mut Context, a: &ArgsI) -> (ok: bool)
        requires
            room(*old(ir), 32),
            a.valid(),
        ensures
            ok,
            *final(self) == *old(self),
            old(self).load_effect(*old(ir), *old(ir), *final(ir), *a, MemOp(4)),
    {
        let g = Ghost(*ir);
        proof {
            lemma_begin(*ir);
        }
        self.gen_load(ir, g, a, MemOp::sb())
    }

    /// `lh rd, imm(rs1)`.
    pub fn trans_lh(&mut self, ir: &mut Context, a: &ArgsI) -> (ok: bool)
        requires
            room(*old(ir), 32),
            a.valid(),
        ensures
            ok,
            *final(self) == *old(self),
            old(self).load_effect(*old(ir), *old(ir), *final(ir), *a, MemOp(5)),
    {
        let g = Ghost(*ir);
        proof {
            lemma_begin(*ir);
        }
        self.gen_load(ir, g, a, MemOp::sw())
    }

    /// `lw rd, imm(rs1)`.
    pub fn trans_lw(&mut self, ir: &mut Context, a: &ArgsI) -> (ok: bool)
        requires
            room(*old(ir), 32),
            a.valid(),
        ensures
            ok,
            *final(self) == *old(self),
            old(self).load_effect(*old(ir), *old(ir), *final(ir), *a, MemOp(6)),
    {
        let g = Ghost(*ir);
        proof {
            lemma_begin(*ir);
        }
        self.gen_load(ir, g, a, MemOp::sl())
    }

    /// `lbu rd, imm(rs1)`.
    pub fn trans_lbu(&mut self, ir: &mut Context, a: &ArgsI) -> (ok: bool)
        requires
            room(*old(ir), 32),
            a.valid(),
        ensures
            ok,
            *final(self) == *old(self),
            old(self).load_effect(*old(ir), *old(ir), *final(ir), *a, MemOp(0)),
    {
        let g = Ghost(*ir);
        proof {
            lemma_begin(*ir);
        }
        self.gen_load(ir, g, a, MemOp::ub())
    }

    /// `lhu rd, imm(rs1)`.
    pub fn trans_lhu(&mut self, ir: &mut Context, a: &ArgsI) -> (ok: bool)
        requires
            room(*old(ir), 32),
            a.valid(),
        ensures
            ok,
            *final(self) == *old(self),
            old(self).load_effect(*old(ir), *old(ir), *final(ir), *a, MemOp(1)),
    {
        let g = Ghost(*ir);
        proof {
            lemma_begin(*ir);
        }
        self.gen_load(ir, g, a, MemOp::uw())
    }

    /// `lwu rd, imm(rs1)`.
    pub fn trans_lwu(&mut self, ir: &mut Context, a: &ArgsI) -> (ok: bool)
        requires
            room(*old(ir), 32),
            a.valid(),
        ensures
            ok,
            *final(self) == *old(self),
            old(self).load_effect(*old(ir), *old(ir), *final(ir), *a, MemOp(2)),
    {
        let g = Ghost(*ir);
        proof {
            lemma_begin(*ir);
        }
        self.gen_load(ir, g, a, MemOp::ul())
    }

    /// `ld rd, imm(rs1)`.
    pub fn trans_ld(&mut self, ir: &mut Context, a: &ArgsI) -> (ok: bool)
        requires
            room(*old(ir), 32),
            a.valid(),
        ensures
            ok,
            *final(self) == *old(self),
            old(self).load_effect(*old(ir), *old(ir), *final(ir), *a, MemOp(3)),
    {
        let g = Ghost(*ir);
        proof {
            lemma_begin(*ir);
        }
        self.gen_load(ir, g, a, MemOp::uq())
    }

    /// `sb rs2, imm(rs1)`.
    pub fn trans_sb(&mut self, ir: &mut Context, a: &ArgsS) -> (ok: bool)
        requires
            room(*old(ir), 32),
            a.valid(),
        ensures
            ok,
            *final(self) == *old(self),
            old(self).store_effect(*old(ir), *old(ir), *final(ir), *a, MemOp(0)),
    {
        let g = Ghost(*ir);
        proof {
            lemma_begin(*ir);
        }
        self.gen_store(ir, g, a, MemOp::ub())
    }

    /// `sh rs2, imm(rs1)`.
    pub fn trans_sh(&mut self, ir: &mut Context, a: &ArgsS) -> (ok: bool)
        requires
            room(*old(ir), 32),
            a.valid(),
        ensures
            ok,
            *final(self) == *old(self),
            old(self).store_effect(*old(ir), *old(ir), *final(ir), *a, MemOp(1)),
    {
        let g = Ghost(*ir);
        proof {
            lemma_begin(*ir);
        }
        self.gen_store(ir, g, a, MemOp::uw())
    }

    /// `sw rs2, imm(rs1)`.
    pub fn trans_sw(&mut self, ir: &mut Context, a: &ArgsS) -> (ok: bool)
        requires
            room(*old(ir), 32),
            a.valid(),
        ensures
            ok,
            *final(self) == *old(self),
            old(self).store_effect(*old(ir), *old(ir), *final(ir), *a, MemOp(2)),
    {
        let g = Ghost(*ir);
        proof {
            lemma_begin(*ir);
        }
        self.gen_store(ir, g, a, MemOp::ul())
    }

    /// `sd rs2, imm(rs1)`.
    pub fn trans_sd(&mut self, ir: &mut Context, a: &ArgsS) -> (ok: bool)
        requires
            room(*old(ir), 32),
            a.valid(),
        ensures
            ok,
            *final(self) == *old(self),
            old(self).store_effect(*old(ir), *old(ir), *final(ir), *a, MemOp(3)),
    {
        let g = Ghost(*ir);
        proof {
            lemma_begin(*ir);
        }
        self.gen_store(ir, g, a, MemOp::uq())
    }

    /// `addi rd, rs1, imm`.
    pub fn trans_addi(&mut self, ir: &mut Context, a: &ArgsI) -> (ok: bool)
        requires
            room(*old(ir), 32),
            a.valid(),
        ensures
            ok,
            *final(self) == *old(self),
            old(self).imm_effect(*old(ir), *old(ir), *final(ir), *a, Opcode::Add),
    {
        let g = Ghost(*ir);
        proof {
            lemma_begin(*ir);
        }
        self.gen_arith_imm(ir, g, a, BinOp::Add)
    }

    /// `xori rd, rs1, imm`.
    pub fn trans_xori(&mut self, ir: &mut Context, a: &ArgsI) -> (ok: bool)
        requires
            room(*old(ir), 32),
            a.valid(),
        ensures
            ok,
            *final(self) == *old(self),
            old(self).imm_effect(*old(ir), *old(ir), *final(ir), *a, Opcode::Xor),
    {
        let g = Ghost(*ir);
        proof {
            lemma_begin(*ir);
        }
        self.gen_arith_imm(ir, g, a, BinOp::Xor)
    }

    /// `ori rd, rs1, imm`.
    pub fn trans_ori(&mut self, ir: &mut Context, a: &ArgsI) -> (ok: bool)
        requires
            room(*old(ir), 32),
            a.valid(),
        ensures
            ok,
            *final(self) == *old(self),
            old(self).imm_effect(*old(ir), *old(ir), *final(ir), *a, Opcode::Or),
    {
        let g = Ghost(*ir);
        proof {
            lemma_begin(*ir);
        }
        self.gen_arith_imm(ir, g, a, BinOp::Or)
    }

    /// `andi rd, rs1, imm`.
    pub fn trans_andi(&mut self, ir: &mut Context, a: &ArgsI) -> (ok: bool)
        requires
            room(*old(ir), 32),
            a.valid(),
        ensures
            ok,
            *final(self) == *old(self),
            old(self).imm_effect(*old(ir), *old(ir), *final(ir), *a, Opcode::And),
    {
        let g = Ghost(*ir);
        proof {
            lemma_begin(*ir);
        }
        self.gen_arith_imm(ir, g, a, BinOp::And)
    }

    /// `slti rd, rs1, imm`.
    pub fn trans_slti(&mut self, ir: &mut Context, a: &ArgsI) -> (ok: bool)
        requires
            room(*old(ir), 32),
            a.valid(),
        ensures
            ok,
            *final(self) == *old(self),
            old(self).setcond_imm_effect(*old(ir), *old(ir), *final(ir), *a, Cond::Lt),
    {
        let g = Ghost(*ir);
        proof {
            lemma_begin(*ir);
        }
        self.gen_setcond_imm(ir, g, a, Cond::Lt)
    }

    /// `sltiu rd, rs1, imm`.
    pub fn trans_sltiu(&mut self, ir: &mut Context, a: &ArgsI) -> (ok: bool)
        requires
            room(*old(ir), 32),
            a.valid(),
        ensures
            ok,
            *final(self) == *old(self),
            old(self).setcond_imm_effect(*old(ir), *old(ir), *final(ir), *a, Cond::Ltu),
    {
        let g = Ghost(*ir);
        proof {
            lemma_begin(*ir);
        }
        self.gen_setcond_imm(ir, g, a, Cond::Ltu)
    }

    /// `slli rd, rs1, shamt`.
    pub fn trans_slli(&mut self, ir: &mut Context, a: &ArgsShift) -> (ok: bool)
        requires
            room(*old(ir), 32),
            a.valid(),
        ensures
            ok,
            *final(self) == *old(self),
            old(self).shift_imm_effect(*old(ir), *old(ir), *final(ir), *a, Opcode::Shl),
    {
        let g = Ghost(*ir);
        proof {
            lemma_begin(*ir);
        }
        self.gen_shift_imm(ir, g, a, BinOp::Shl)
    }

    /// `srli rd, rs1, shamt`.
    pub fn trans_srli(&mut self, ir: &mut Context, a: &ArgsShift) -> (ok: bool)
        requires
            room(*old(ir), 32),
            a.valid(),
        ensures
            ok,
            *final(self) == *old(self),
            old(self).shift_imm_effect(*old(ir), *old(ir), *final(ir), *a, Opcode::Shr),
    {
        let g = Ghost(*ir);
        proof {
            lemma_begin(*ir);
        }
        self.gen_shift_imm(ir, g, a, BinOp::Shr)
    }

    /// `srai rd, rs1, shamt`.
    pub fn trans_srai(&mut self, ir: &mut Context, a: &ArgsShift) -> (ok: bool)
        requires
            room(*old(ir), 32),
            a.valid(),
        ensures
            ok,
            *final(self) == *old(self),
            old(self).shift_imm_effect(*old(ir), *old(ir), *final(ir), *a, Opcode::Sar),
    {
        let g = Ghost(*ir);
        proof {
            lemma_begin(*ir);
        }
        self.gen_shift_imm(ir, g, a, BinOp::Sar)
    }

    /// `add rd, rs1, rs2`.
    pub fn trans_add(&mut self, ir: &mut Context, a: &ArgsR) -> (ok: bool)
        requires
            room(*old(ir), 32),
            a.valid(),
        ensures
            ok,
            *final(self) == *old(self),
            old(self).arith_effect(*old(ir), *old(ir), *final(ir), *a, Opcode::Add),
    {
        let g = Ghost(*ir);
        proof {
            lemma_begin(*ir);
        }
        self.gen_arith(ir, g, a, BinOp::Add)
    }

    /// `sub rd, rs1, rs2`.
    pub fn trans_sub(&mut self, ir: &mut Context, a: &ArgsR) -> (ok: bool)
        requires
            room(*old(ir), 32),
            a.valid(),
        ensures
            ok,
            *final(self) == *old(self),
            old(self).arith_effect(*old(ir), *old(ir), *final(ir), *a, Opcode::Sub),
    {
        let g = Ghost(*ir);
        proof {
            lemma_begin(*ir);
        }
        self.gen_arith(ir, g, a, BinOp::Sub)
    }

    /// `sll rd, rs1, rs2`.
    pub fn trans_sll(&mut self, ir: &mut Context, a: &ArgsR) -> (ok: bool)
        requires
            room(*old(ir), 32),
            a.valid(),
        ensures
            ok,
            *final(self) == *old(self),
            old(self).arith_effect(*old(ir), *old(ir), *final(ir), *a, Opcode::Shl),
    {
        let g = Ghost(*ir);
        proof {
            lemma_begin(*ir);
        }
        self.gen_arith(ir, g, a, BinOp::Shl)
    }

    /// `slt rd, rs1, rs2`.
    pub fn trans_slt(&mut self, ir: &mut Context, a: &ArgsR) -> (ok: bool)
        requires
            room(*old(ir), 32),
            a.valid(),
        ensures
            ok,
            *final(self) == *old(self),
            old(self).setcond_rr_effect(*old(ir), *old(ir), *final(ir), *a, Cond::Lt),
    {
        let g = Ghost(*ir);
        proof {
            lemma_begin(*ir);
        }
        self.gen_setcond_rr(ir, g, a, Cond::Lt)
    }

    /// `sltu rd, rs1, rs2`.
    pub fn trans_sltu(&mut self, ir: &mut Context, a: &ArgsR) -> (ok: bool)
        requires
            room(*old(ir), 32),
            a.valid(),
        ensures
            ok,
            *final(self) == *old(self),
            old(self).setcond_rr_effect(*old(ir), *old(ir), *final(ir), *a, Cond::Ltu),
    {
        let g = Ghost(*ir);
        proof {
            lemma_begin(*ir);
        }
        self.gen_setcond_rr(ir, g, a, Cond::Ltu)
    }

    /// `xor rd, rs1, rs2`.
    pub fn trans_xor(&mut self, ir: &mut Context, a: &ArgsR) -> (ok: bool)
        requires
            room(*old(ir), 32),
            a.valid(),
        ensures
            ok,
            *final(self) == *old(self),
            old(self).arith_effect(*old(ir), *old(ir), *final(ir), *a, Opcode::Xor),
    {
        let g = Ghost(*ir);
        proof {
            lemma_begin(*ir);
        }
        self.gen_arith(ir, g, a, BinOp::Xor)
    }

    /// `srl rd, rs1, rs2`.
    pub fn trans_srl(&mut self, ir: &mut Context, a: &ArgsR) -> (ok: bool)
        requires
            room(*old(ir), 32),
            a.valid(),
        ensures
            ok,
            *final(self) == *old(self),
            old(self).arith_effect(*old(ir), *old(ir), *final(ir), *a, Opcode::Shr),
    {
        let g = Ghost(*ir);
        proof {
            lemma_begin(*ir);
        }
        self.gen_arith(ir, g, a, BinOp::Shr)
    }

    /// `sra rd, rs1, rs2`.
    pub fn trans_sra(&mut self, ir: &mut Context, a: &ArgsR) -> (ok: bool)
        requires
            room(*old(ir), 32),
            a.valid(),
        ensures
            ok,
            *final(self) == *old(self),
            old(self).arith_effect(*old(ir), *old(ir), *final(ir), *a, Opcode::Sar),
    {
        let g = Ghost(*ir);
        proof {
            lemma_begin(*ir);
        }
        self.gen_arith(ir, g, a, BinOp::Sar)
    }

    /// `or rd, rs1, rs2`.
    pub fn trans_or(&mut self, ir: &mut Context, a: &ArgsR) -> (ok: bool)
        requires
            room(*old(ir), 32),
            a.valid(),
        ensures
            ok,
            *final(self) == *old(self),
            old(self).arith_effect(*old(ir), *old(ir), *final(ir), *a, Opcode::Or),
    {
        let g = Ghost(*ir);
        proof {
            lemma_begin(*ir);
        }
        self.gen_arith(ir, g, a, BinOp::Or)
    }

    /// `and rd, rs1, rs2`.
    pub fn trans_and(&mut self, ir: &mut Context, a: &ArgsR) -> (ok: bool)
        requires
            room(*old(ir), 32),
            a.valid(),
        ensures
            ok,
            *final(self) == *old(self),
            old(self).arith_effect(*old(ir), *old(ir), *final(ir), *a, Opcode::And),
    {
        let g = Ghost(*ir);
        proof {
            lemma_begin(*ir);
        }
        self.gen_arith(ir, g, a, BinOp::And)
    }

    /// `addiw rd, rs1, imm`.
    pub fn trans_addiw(&mut self, ir: &mut Context, a: &ArgsI) -> (ok: bool)
        requires
            room(*old(ir), 32),
            a.valid(),
        ensures
            ok,
            *final(self) == *old(self),
            old(self).imm_w_effect(*old(ir), *old(ir), *final(ir), *a, Opcode::Add),
    {
        let g = Ghost(*ir);
        proof {
            lemma_begin(*ir);
        }
        self.gen_arith_imm_w(ir, g, a, BinOp::Add)
    }

    /// `slliw rd, rs1, shamt`.
    pub fn trans_slliw(&mut self, ir: &mut Context, a: &ArgsShift) -> (ok: bool)
        requires
            room(*old(ir), 32),
            a.valid(),
        ensures
            ok,
            *final(self) == *old(self),
            old(self).shift_imm_w_effect(*old(ir), *old(ir), *final(ir), *a, Opcode::Shl),
    {
        let g = Ghost(*ir);
        proof {
            lemma_begin(*ir);
        }
        self.gen_shift_imm_w(ir, g, a, BinOp::Shl)
    }

    /// `srliw rd, rs1, shamt`.
    pub fn trans_srliw(&mut self, ir: &mut Context, a: &ArgsShift) -> (ok: bool)
        requires
            room(*old(ir), 32),
            a.valid(),
        ensures
            ok,
            *final(self) == *old(self),
            old(self).shift_imm_w_effect(*old(ir), *old(ir), *final(ir), *a, Opcode::Shr),
    {
        let g = Ghost(*ir);
        proof {
            lemma_begin(*ir);
        }
        self.gen_shift_imm_w(ir, g, a, BinOp::Shr)
    }

    /// `sraiw rd, rs1, shamt`.
    pub fn trans_sraiw(&mut self, ir: &mut Context, a: &ArgsShift) -> (ok: bool)
        requires
            room(*old(ir), 32),
            a.valid(),
        ensures
            ok,
            *final(self) == *old(self),
            old(self).shift_imm_w_effect(*old(ir), *old(ir), *final(ir), *a, Opcode::Sar),
    {
        let g = Ghost(*ir);
        proof {
            lemma_begin(*ir);
        }
        self.gen_shift_imm_w(ir, g, a, BinOp::Sar)
    }

    /// `addw rd, rs1, rs2`.
    pub fn trans_addw(&mut self, ir: &mut Context, a: &ArgsR) -> (ok: bool)
        requires
            room(*old(ir), 32),
            a.valid(),
        ensures
            ok,
            *final(self) == *old(self),
            old(self).arith_w_effect(*old(ir), *old(ir), *final(ir), *a, Opcode::Add),
    {
        let g = Ghost(*ir);
        proof {
            lemma_begin(*ir);
        }
        self.gen_arith_w(ir, g, a, BinOp::Add)
    }

    /// `subw rd, rs1, rs2`.
    pub fn trans_subw(&mut self, ir: &mut Context, a: &ArgsR) -> (ok: bool)
        requires
            room(*old(ir), 32),
            a.valid(),
        ensures
            ok,
            *final(self) == *old(self),
            old(self).arith_w_effect(*old(ir), *old(ir), *final(ir), *a, Opcode::Sub),
    {
        let g = Ghost(*ir);
        proof {
            lemma_begin(*ir);
        }
        self.gen_arith_w(ir, g, a, BinOp::Sub)
    }

    /// `sllw rd, rs1, rs2`.
    pub fn trans_sllw(&mut self, ir: &mut Context, a: &ArgsR) -> (ok: bool)
        requires
            room(*old(ir), 32),
            a.valid(),
        ensures
            ok,
            *final(self) == *old(self),
            old(self).shiftw_effect(*old(ir), *old(ir), *final(ir), *a, Opcode::Shl),
    {
        let g = Ghost(*ir);
        proof {
            lemma_begin(*ir);
        }
        self.gen_shiftw(ir, g, a, BinOp::Shl)
    }

    /// `srlw rd, rs1, rs2`.
    pub fn trans_srlw(&mut self, ir: &mut Context, a: &ArgsR) -> (ok: bool)
        requires
            room(*old(ir), 32),
            a.valid(),
        ensures
            ok,
            *final(self) == *old(self),
            old(self).shiftw_effect(*old(ir), *old(ir), *final(ir), *a, Opcode::Shr),
    {
        let g = Ghost(*ir);
        proof {
            lemma_begin(*ir);
        }
        self.gen_shiftw(ir, g, a, BinOp::Shr)
    }

    /// `sraw rd, rs1, rs2`.
    pub fn trans_sraw(&mut self, ir: &mut Context, a: &ArgsR) -> (ok: bool)
        requires
            room(*old(ir), 32),
            a.valid(),
        ensures
            ok,
            *final(self) == *old(self),
            old(self).shiftw_effect(*old(ir), *old(ir), *final(ir), *a, Opcode::Sar),
    {
        let g = Ghost(*ir);
        proof {
            lemma_begin(*ir);
        }
        self.gen_shiftw(ir, g, a, BinOp::Sar)
    }

    /// `mul rd, rs1, rs2`.
    pub fn trans_mul(&mut self, ir: &mut Context, a: &ArgsR) -> (ok: bool)
        requires
            room(*old(ir), 32),
            a.valid(),
        ensures
            ok,
            *final(self) == *old(self),
            old(self).arith_effect(*old(ir), *old(ir), *final(ir), *a, Opcode::Mul),
    {
        let g = Ghost(*ir);
        proof {
            lemma_begin(*ir);
        }
        self.gen_arith(ir, g, a, BinOp::Mul)
    }

    /// `mulw rd, rs1, rs2`.
    pub fn trans_mulw(&mut self, ir: &mut Context, a: &ArgsR) -> (ok: bool)
        requires
            room(*old(ir), 32),
            a.valid(),
        ensures
            ok,
            *final(self) == *old(self),
            old(self).arith_w_effect(*old(ir), *old(ir), *final(ir), *a, Opcode::Mul),
    {
        let g = Ghost(*ir);
        proof {
            lemma_begin(*ir);
        }
        self.gen_arith_w(ir, g, a, BinOp::Mul)
    }
}

impl RiscvDisasContext {
    /// The PC of the next instruction.
    pub open spec fn next_pc(self) -> int {
        self.base.pc_next + self.cur_insn_len
    }

    /// The PC `imm` bytes from the current instruction.
    pub open spec fn rel_pc(self, imm: i64) -> int {
        (self.base.pc_next as i64) + imm
    }

    /// Both PCs that an instruction of this context can name fit.
    pub open spec fn pcs_ok(self, imm: i64) -> bool {
        &&& self.next_pc() <= u64::MAX
        &&& i64::MIN <= self.rel_pc(imm) <= i64::MAX
    }

    /// `self` with the block ended by the current instruction.
    pub open spec fn ended(self) -> Self {
        RiscvDisasContext { base: DisasContextBase { is_jmp: DisasJumpType::NoReturn, ..self.base }, ..self }
    }

    /// The ops that set the guest PC to `v` and leave the block with exit value `code`.
    pub open spec fn exit_ops(self, f: Context, v: u64, code: u64) -> Seq<OpShape> {
        seq![(Opcode::Mov, Type::I64, seq![self.pc, cst(f, Type::I64, v)]), (Opcode::ExitTb, Type::I64, seq![exit_arg(code)])]
    }

    /// The ops of a conditional branch with label `l`: leave to the next
    /// instruction when `rs1 cond rs2` fails, else to the target.
    pub open spec fn branch_ops(self, f: Context, a: ArgsB, cond: Cond, l: u32) -> Seq<OpShape> {
        seq![(Opcode::BrCond, Type::I64, seq![self.src(f, a.rs1), self.src(f, a.rs2), spec_carg(cond.spec_code()), spec_carg(l)])]
            + self.exit_ops(f, self.next_pc() as u64, 0) + seq![(Opcode::SetLabel, Type::I64, seq![spec_carg(l)])]
            + self.exit_ops(f, self.rel_pc(a.imm) as u64, 0)
    }

    /// From `o` to `f` the IR gained the conditional branch `a` on `cond`.
    pub open spec fn branch_effect(self, g: Context, o: Context, f: Context, a: ArgsB, cond: Cond) -> bool {
        &&& adds(g, o, f, self.branch_ops(f, a, cond, o.labels_view().len() as u32))
        &&& f.labels_view().len() == o.labels_view().len() + 1
        &&& self.src_ok(f, a.rs1)
        &&& self.src_ok(f, a.rs2)
        &&& has_cst(f, Type::I64, self.next_pc() as u64)
        &&& has_cst(f, Type::I64, self.rel_pc(a.imm) as u64)
    }

    /// Conditional branch; it ends the block.
    #[verifier::spinoff_prover]
    fn gen_branch(&mut self, ir: &mut Context, g: Ghost<Context>, a: &ArgsB, cond: Cond)
        requires
            grown(g@, *old(ir)),
            room(*old(ir), 16),
            a.valid(),
            old(self).pcs_ok(a.imm),
        ensures
            *final(self) == old(self).ended(),
            old(self).branch_effect(g@, *old(ir), *final(ir), *a, cond),
            spent(*old(ir), *final(ir), 10),
    {
        let ghost o = *ir;
        let src1 = self.gpr_or_zero(ir, g, a.rs1);
        let src2 = self.gpr_or_zero(ir, g, a.rs2);
        let taken = label(ir, g);
        emit_brcond(ir, g, Type::I64, src1, src2, cond, taken);
        let next_pc = self.base.pc_next + self.cur_insn_len as u64;
        let c = constant(ir, g, Type::I64, next_pc);
        emit_mov(ir, g, Type::I64, self.pc, c);
        emit_exit_tb(ir, g, 0);
        emit_set_label(ir, g, taken);
        let target = (self.base.pc_next as i64 + a.imm) as u64;
        let c2 = constant(ir, g, Type::I64, target);
        emit_mov(ir, g, Type::I64, self.pc, c2);
        emit_exit_tb(ir, g, 0);
        self.base.is_jmp = DisasJumpType::NoReturn;
        assert(emitted(g@, *ir) =~= emitted(g@, o) + old(self).branch_ops(*ir, *a, cond, o.labels_view().len() as u32));
    }

    /// `lui rd, imm`: `rd = imm`.
    pub fn trans_lui(&mut self, ir: &mut Context, a: &ArgsU) -> (ok: bool)
        requires
            room(*old(ir), 32),
            a.valid(),
        ensures
            ok,
            *final(self) == *old(self),
            builds(*old(ir), *final(ir), old(self).set_gpr_ops(a.rd, cst(*final(ir), Type::I64, a.imm as u64))),
            has_cst(*final(ir), Type::I64, a.imm as u64),
            final(ir).labels_view().len() == old(ir).labels_view().len(),
    {
        let g = Ghost(*ir);
        proof {
            lemma_begin(*ir);
        }
        let c = constant(ir, g, Type::I64, a.imm as u64);
        self.gen_set_gpr(ir, g, a.rd, c);
        true
    }

    /// `auipc rd, imm`: `rd = pc + imm`.
    pub fn trans_auipc(&mut self, ir: &mut Context, a: &ArgsU) -> (ok: bool)
        requires
            room(*old(ir), 32),
            a.valid(),
            old(self).pcs_ok(a.imm),
        ensures
            ok,
            *final(self) == *old(self),
            builds(*old(ir), *final(ir), old(self).set_gpr_ops(a.rd, cst(*final(ir), Type::I64, old(self).rel_pc(a.imm) as u64))),
            has_cst(*final(ir), Type::I64, old(self).rel_pc(a.imm) as u64),
            final(ir).labels_view().len() == old(ir).labels_view().len(),
    {
        let g = Ghost(*ir);
        proof {
            lemma_begin(*ir);
        }
        let v = (self.base.pc_next as i64 + a.imm) as u64;
        let c = constant(ir, g, Type::I64, v);
        self.gen_set_gpr(ir, g, a.rd, c);
        true
    }

    /// `jal rd, imm`: link into `rd`, jump to `pc + imm`; ends the block.
    pub fn trans_jal(&mut self, ir: &mut Context, a: &ArgsJ) -> (ok: bool)
        requires
            room(*old(ir), 32),
            a.valid(),
            old(self).pcs_ok(a.imm),
        ensures
            ok,
            *final(self) == old(self).ended(),
            builds(
                *old(ir),
                *final(ir),
                old(self).set_gpr_ops(a.rd, cst(*final(ir), Type::I64, old(self).next_pc() as u64)) + old(self).exit_ops(
                    *final(ir),
                    old(self).rel_pc(a.imm) as u64,
                    0,
                ),
            ),
            has_cst(*final(ir), Type::I64, old(self).next_pc() as u64),
            has_cst(*final(ir), Type::I64, old(self).rel_pc(a.imm) as u64),
            final(ir).labels_view().len() == old(ir).labels_view().len(),
    {
        let g = Ghost(*ir);
        let ghost o = *ir;
        proof {
            lemma_begin(*ir);
        }
        let link = self.base.pc_next + self.cur_insn_len as u64;
        let c = constant(ir, g, Type::I64, link);
        self.gen_set_gpr(ir, g, a.rd, c);
        let target = (self.base.pc_next as i64 + a.imm) as u64;
        let c = constant(ir, g, Type::I64, target);
        emit_mov(ir, g, Type::I64, self.pc, c);
        emit_exit_tb(ir, g, 0);
        self.base.is_jmp = DisasJumpType::NoReturn;
        assert(emitted(o, *ir) =~= old(self).set_gpr_ops(a.rd, cst(*ir, Type::I64, old(self).next_pc() as u64))
            + old(self).exit_ops(*ir, old(self).rel_pc(a.imm) as u64, 0));
        true
    }

    /// The ops of `jalr rd, imm(rs1)` with the target computed into `t`.
    pub open spec fn jalr_ops(self, f: Context, a: ArgsI, t: TempIdx) -> Seq<OpShape> {
        seq![
            (Opcode::Add, Type::I64, seq![t, self.src(f, a.rs1), cst(f, Type::I64, a.imm as u64)]),
            (Opcode::And, Type::I64, seq![t, t, cst(f, Type::I64, 0xffff_ffff_ffff_fffeu64)]),
        ] + self.set_gpr_ops(a.rd, cst(f, Type::I64, self.next_pc() as u64)) + seq![
            (Opcode::Mov, Type::I64, seq![self.pc, t]),
            (Opcode::ExitTb, Type::I64, seq![exit_arg(0)]),
        ]
    }

    /// `jalr rd, imm(rs1)`: jump to `(rs1 + imm) & !1`, link into `rd`; ends the block.
    #[verifier::spinoff_prover]
    pub fn trans_jalr(&mut self, ir: &mut Context, a: &ArgsI) -> (ok: bool)
        requires
            room(*old(ir), 32),
            a.valid(),
            old(self).next_pc() <= u64::MAX,
        ensures
            ok,
            *final(self) == old(self).ended(),
            builds(*old(ir), *final(ir), old(self).jalr_ops(*final(ir), *a, out_temp(*old(ir), *final(ir), 0))),
            fresh_temp(*old(ir), *final(ir), out_temp(*old(ir), *final(ir), 0), Type::I64),
            old(self).src_ok(*final(ir), a.rs1),
            has_cst(*final(ir), Type::I64, a.imm as u64),
            has_cst(*final(ir), Type::I64, 0xffff_ffff_ffff_fffeu64),
            has_cst(*final(ir), Type::I64, old(self).next_pc() as u64),
            final(ir).labels_view().len() == old(ir).labels_view().len(),
    {
        let g = Ghost(*ir);
        let ghost o = *ir;
        proof {
            lemma_begin(*ir);
        }
        let link = self.base.pc_next + self.cur_insn_len as u64;
        let src = self.gpr_or_zero(ir, g, a.rs1);
        let imm = constant(ir, g, Type::I64, a.imm as u64);
        let tmp = temp(ir, g, Type::I64);
        emit_binop(ir, g, BinOp::Add, Type::I64, tmp, src, imm);
        let mask = constant(ir, g, Type::I64, 0xffff_ffff_ffff_fffeu64);
        emit_binop(ir, g, BinOp::And, Type::I64, tmp, tmp, mask);
        let c = constant(ir, g, Type::I64, link);
        self.gen_set_gpr(ir, g, a.rd, c);
        emit_mov(ir, g, Type::I64, self.pc, tmp);
        emit_exit_tb(ir, g, 0);
        self.base.is_jmp = DisasJumpType::NoReturn;
        assert(emitted(o, *ir) =~= old(self).jalr_ops(*ir, *a, out_temp(o, *ir, 0)));
        true
    }

    /// `beq rs1, rs2, imm`.
    pub fn trans_beq(&mut self, ir: &mut Context, a: &ArgsB) -> (ok: bool)
        requires
            room(*old(ir), 32),
            a.valid(),
            old(self).pcs_ok(a.imm),
        ensures
            ok,
            *final(self) == old(self).ended(),
            old(self).branch_effect(*old(ir), *old(ir), *final(ir), *a, Cond::Eq),
    {
        let g = Ghost(*ir);
        proof {
            lemma_begin(*ir);
        }
        self.gen_branch(ir, g, a, Cond::Eq);
        true
    }

    /// `bne rs1, rs2, imm`.
    pub fn trans_bne(&mut self, ir: &mut Context, a: &ArgsB) -> (ok: bool)
        requires
            room(*old(ir), 32),
            a.valid(),
            old(self).pcs_ok(a.imm),
        ensures
            ok,
            *final(self) == old(self).ended(),
            old(self).branch_effect(*old(ir), *old(ir), *final(ir), *a, Cond::Ne),
    {
        let g = Ghost(*ir);
        proof {
            lemma_begin(*ir);
        }
        self.gen_branch(ir, g, a, Cond::Ne);
        true
    }

    /// `blt rs1, rs2, imm`.
    pub fn trans_blt(&mut self, ir: &mut Context, a: &ArgsB) -> (ok: bool)
        requires
            room(*old(ir), 32),
            a.valid(),
            old(self).pcs_ok(a.imm),
        ensures
            ok,
            *final(self) == old(self).ended(),
            old(self).branch_effect(*old(ir), *old(ir), *final(ir), *a, Cond::Lt),
    {
        let g = Ghost(*ir);
        proof {
            lemma_begin(*ir);
        }
        self.gen_branch(ir, g, a, Cond::Lt);
        true
    }

    /// `bge rs1, rs2, imm`.
    pub fn trans_bge(&mut self, ir: &mut Context, a: &ArgsB) -> (ok: bool)
        requires
            room(*old(ir), 32),
            a.valid(),
            old(self).pcs_ok(a.imm),
        ensures
            ok,
            *final(self) == old(self).ended(),
            old(self).branch_effect(*old(ir), *old(ir), *final(ir), *a, Cond::Ge),
    {
        let g = Ghost(*ir);
        proof {
            lemma_begin(*ir);
        }
        self.gen_branch(ir, g, a, Cond::Ge);
        true
    }

    /// `bltu rs1, rs2, imm`.
    pub fn trans_bltu(&mut self, ir: &mut Context, a: &ArgsB) -> (ok: bool)
        requires
            room(*old(ir), 32),
            a.valid(),
            old(self).pcs_ok(a.imm),
        ensures
            ok,
            *final(self) == old(self).ended(),
            old(self).branch_effect(*old(ir), *old(ir), *final(ir), *a, Cond::Ltu),
    {
        let g = Ghost(*ir);
        proof {
            lemma_begin(*ir);
        }
        self.gen_branch(ir, g, a, Cond::Ltu);
        true
    }

    /// `bgeu rs1, rs2, imm`.
    pub fn trans_bgeu(&mut self, ir: &mut Context, a: &ArgsB) -> (ok: bool)
        requires
            room(*old(ir), 32),
            a.valid(),
            old(self).pcs_ok(a.imm),
        ensures
            ok,
            *final(self) == old(self).ended(),
            old(self).branch_effect(*old(ir), *old(ir), *final(ir), *a, Cond::Geu),
    {
        let g = Ghost(*ir);
        proof {
            lemma_begin(*ir);
        }
        self.gen_branch(ir, g, a, Cond::Geu);
        true
    }

    /// `fence`: no effect for a single-threaded user-mode guest.
    pub fn trans_fence(&mut self, ir: &mut Context, a: &ArgsAutoFence) -> (ok: bool)
        ensures
            ok,
            *final(self) == *old(self),
            *final(ir) == *old(ir),
    {
        true
    }

    /// Set the guest PC to this instruction and leave with exit value `code`;
    /// ends the block.
    fn gen_exit_here(&mut self, ir: &mut Context, code: u64)
        requires
            room(*old(ir), 32),
        ensures
            *final(self) == old(self).ended(),
            builds(*old(ir), *final(ir), old(self).exit_ops(*final(ir), old(self).base.pc_next, code)),
            has_cst(*final(ir), Type::I64, old(self).base.pc_next),
            final(ir).labels_view().len() == old(ir).labels_view().len(),
    {
        let g = Ghost(*ir);
        let ghost o = *ir;
        proof {
            lemma_begin(*ir);
        }
        let pc = constant(ir, g, Type::I64, self.base.pc_next);
        emit_mov(ir, g, Type::I64, self.pc, pc);
        emit_exit_tb(ir, g, code);
        self.base.is_jmp = DisasJumpType::NoReturn;
        assert(emitted(o, *ir) =~= old(self).exit_ops(*ir, old(self).base.pc_next, code));
    }

    /// `ecall`: leave the block with exit value 1 at this instruction, for
    /// the system-call handler.
    pub fn trans_ecall(&mut self, ir: &mut Context, a: &ArgsEmpty) -> (ok: bool)
        requires
            room(*old(ir), 32),
        ensures
            ok,
            *final(self) == old(self).ended(),
            builds(*old(ir), *final(ir), old(self).exit_ops(*final(ir), old(self).base.pc_next, 1)),
            has_cst(*final(ir), Type::I64, old(self).base.pc_next),
            final(ir).labels_view().len() == old(ir).labels_view().len(),
    {
        self.gen_exit_here(ir, 1);
        true
    }

    /// `ebreak`: leave the block with exit value 2 at this instruction.
    pub fn trans_ebreak(&mut self, ir: &mut Context, a: &ArgsEmpty) -> (ok: bool)
        requires
            room(*old(ir), 32),
        ensures
            ok,
            *final(self) == old(self).ended(),
            builds(*old(ir), *final(ir), old(self).exit_ops(*final(ir), old(self).base.pc_next, 2)),
            has_cst(*final(ir), Type::I64, old(self).base.pc_next),
            final(ir).labels_view().len() == old(ir).labels_view().len(),
    {
        self.gen_exit_here(ir, 2);
        true
    }

    /// The ops of a high multiply with the double-width product in `(lo, hi)`.
    pub open spec fn mulh_ops(self, f: Context, a: ArgsR, opc: Opcode, lo: TempIdx, hi: TempIdx) -> Seq<OpShape> {
        seq![(opc, Type::I64, seq![lo, hi, self.src(f, a.rs1), self.src(f, a.rs2)])] + self.set_gpr_ops(a.rd, hi)
    }

    /// From `o` to `f` the IR gained `rd` = high half of the double-width
    /// product `rs1 * rs2` made by `opc`.
    pub open spec fn mulh_effect(self, o: Context, f: Context, a: ArgsR, opc: Opcode) -> bool {
        &&& builds(o, f, self.mulh_ops(f, a, opc, out_temp(o, f, 0), out2_temp(o, f, 0)))
        &&& fresh2(o, f, out_temp(o, f, 0), out2_temp(o, f, 0), Type::I64)
        &&& self.src_ok(f, a.rs1)
        &&& self.src_ok(f, a.rs2)
        &&& f.labels_view().len() == o.labels_view().len()
    }

    /// High half of a double-width product of `rs1` and `rs2`.
    fn gen_mul_high(&self, ir: &mut Context, a: &ArgsR, signed: bool)
        requires
            room(*old(ir), 32),
            a.valid(),
        ensures
            self.mulh_effect(*old(ir), *final(ir), *a, if signed { Opcode::MulS2 } else { Opcode::MulU2 }),
    {
        let g = Ghost(*ir);
        let ghost o = *ir;
        proof {
            lemma_begin(*ir);
        }
        let s1 = self.gpr_or_zero(ir, g, a.rs1);
        let s2 = self.gpr_or_zero(ir, g, a.rs2);
        let lo = temp(ir, g, Type::I64);
        let hi = temp(ir, g, Type::I64);
        if signed {
            emit_muls2(ir, g, Type::I64, lo, hi, s1, s2);
        } else {
            emit_mulu2(ir, g, Type::I64, lo, hi, s1, s2);
        }
        self.gen_set_gpr(ir, g, a.rd, hi);
        assert(out2_temp(o, *ir, 0) == hi);
        assert(emitted(o, *ir) =~= self.mulh_ops(*ir, *a, if signed { Opcode::MulS2 } else { Opcode::MulU2 }, lo, hi));
    }

    /// `mulh rd, rs1, rs2`: high half of the signed product.
    pub fn trans_mulh(&mut self, ir: &mut Context, a: &ArgsR) -> (ok: bool)
        requires
            room(*old(ir), 32),
            a.valid(),
        ensures
            ok,
            *final(self) == *old(self),
            old(self).mulh_effect(*old(ir), *final(ir), *a, Opcode::MulS2),
    {
        self.gen_mul_high(ir, a, true);
        true
    }

    /// `mulhu rd, rs1, rs2`: high half of the unsigned product.
    pub fn trans_mulhu(&mut self, ir: &mut Context, a: &ArgsR) -> (ok: bool)
        requires
            room(*old(ir), 32),
            a.valid(),
        ensures
            ok,
            *final(self) == *old(self),
            old(self).mulh_effect(*old(ir), *final(ir), *a, Opcode::MulU2),
    {
        self.gen_mul_high(ir, a, false);
        true
    }

    /// The ops of `mulhsu`: the unsigned high product, corrected by
    /// subtracting `rs2` when `rs1` is negative.
    pub open spec fn mulhsu_ops(self, f: Context, a: ArgsR, lo: TempIdx, hi: TempIdx, sign: TempIdx, adj: TempIdx) -> Seq<OpShape> {
        seq![
            (Opcode::MulU2, Type::I64, seq![lo, hi, self.src(f, a.rs1), self.src(f, a.rs2)]),
            (Opcode::Sar, Type::I64, seq![sign, self.src(f, a.rs1), cst(f, Type::I64, 63)]),
            (Opcode::And, Type::I64, seq![adj, sign, self.src(f, a.rs2)]),
            (Opcode::Sub, Type::I64, seq![hi, hi, adj]),
        ] + self.set_gpr_ops(a.rd, hi)
    }

    /// `mulhsu rd, rs1, rs2`: high half of signed `rs1` times unsigned `rs2`.
    #[verifier::spinoff_prover]
    pub fn trans_mulhsu(&mut self, ir: &mut Context, a: &ArgsR) -> (ok: bool)
        requires
            room(*old(ir), 32),
            a.valid(),
        ensures
            ok,
            *final(self) == *old(self),
            builds(
                *old(ir),
                *final(ir),
                old(self).mulhsu_ops(
                    *final(ir),
                    *a,
                    out_temp(*old(ir), *final(ir), 0),
                    out2_temp(*old(ir), *final(ir), 0),
                    out_temp(*old(ir), *final(ir), 1),
                    out_temp(*old(ir), *final(ir), 2),
                ),
            ),
            fresh2(*old(ir), *final(ir), out_temp(*old(ir), *final(ir), 0), out2_temp(*old(ir), *final(ir), 0), Type::I64),
            fresh2(*old(ir), *final(ir), out2_temp(*old(ir), *final(ir), 0), out_temp(*old(ir), *final(ir), 1), Type::I64),
            fresh2(*old(ir), *final(ir), out_temp(*old(ir), *final(ir), 1), out_temp(*old(ir), *final(ir), 2), Type::I64),
            old(self).src_ok(*final(ir), a.rs1),
            old(self).src_ok(*final(ir), a.rs2),
            has_cst(*final(ir), Type::I64, 63),
            final(ir).labels_view().len() == old(ir).labels_view().len(),
    {
        let g = Ghost(*ir);
        let ghost o = *ir;
        proof {
            lemma_begin(*ir);
        }
        let s1 = self.gpr_or_zero(ir, g, a.rs1);
        let s2 = self.gpr_or_zero(ir, g, a.rs2);
        let lo = temp(ir, g, Type::I64);
        let hi = temp(ir, g, Type::I64);
        emit_mulu2(ir, g, Type::I64, lo, hi, s1, s2);
        let c63 = constant(ir, g, Type::I64, 63);
        let sign = temp(ir, g, Type::I64);
        emit_binop(ir, g, BinOp::Sar, Type::I64, sign, s1, c63);
        let adj = temp(ir, g, Type::I64);
        emit_binop(ir, g, BinOp::And, Type::I64, adj, sign, s2);
        emit_binop(ir, g, BinOp::Sub, Type::I64, hi, hi, adj);
        self.gen_set_gpr(ir, g, a.rd, hi);
        assert(out2_temp(o, *ir, 0) == hi);
        assert(emitted(o, *ir) =~= self.mulhsu_ops(*ir, *a, lo, hi, sign, adj));
        true
    }
}

/// The `MovCond` op `d = (c1 == c2) ? v1 : v2`.
pub open spec fn sel_eq(ty: Type, d: TempIdx, c1: TempIdx, c2: TempIdx, v1: TempIdx, v2: TempIdx) -> OpShape {
    (Opcode::MovCond, ty, seq![d, c1, c2, v1, v2, spec_carg(Cond::Eq.spec_code())])
}

impl RiscvDisasContext {
    /// The ops of 64-bit signed division or remainder, with RISC-V's results
    /// for a zero divisor (quotient -1, remainder the dividend) and for
    /// `MIN / -1` (quotient `MIN`, remainder 0). The temps `t` are, in order:
    /// the safe divisor, the sign word of the dividend, quotient, remainder,
    /// and the result (after the negated dividend when the quotient is wanted).
    pub open spec fn div_rem_ops(self, f: Context, a: ArgsR, want_rem: bool, t: Seq<TempIdx>) -> Seq<OpShape> {
        let s1 = self.src(f, a.rs1);
        let s2 = self.src(f, a.rs2);
        let zero = cst(f, Type::I64, 0);
        let one = cst(f, Type::I64, 1);
        let neg1 = cst(f, Type::I64, u64::MAX);
        seq![
            sel_eq(Type::I64, t[0], s2, zero, one, s2),
            sel_eq(Type::I64, t[0], t[0], neg1, one, t[0]),
            (Opcode::Sar, Type::I64, seq![t[1], s1, cst(f, Type::I64, 63)]),
            (Opcode::DivS2, Type::I64, seq![t[2], t[3], s1, t[1], t[0]]),
        ] + if want_rem {
            seq![sel_eq(Type::I64, t[4], s2, zero, s1, t[3]), sel_eq(Type::I64, t[4], s2, neg1, zero, t[4])]
                + self.set_gpr_ops(a.rd, t[4])
        } else {
            seq![
                (Opcode::Neg, Type::I64, seq![t[4], s1]),
                sel_eq(Type::I64, t[5], s2, zero, neg1, t[2]),
                sel_eq(Type::I64, t[5], s2, neg1, t[4], t[5]),
            ] + self.set_gpr_ops(a.rd, t[5])
        }
    }

    /// The temps that `div_rem_ops` names, read back from the ops.
    pub open spec fn div_rem_temps(o: Context, f: Context, want_rem: bool) -> Seq<TempIdx> {
        seq![out_temp(o, f, 0), out_temp(o, f, 2), out_temp(o, f, 3), out2_temp(o, f, 3), out_temp(o, f, 4)] + if want_rem {
            seq![]
        } else {
            seq![out_temp(o, f, 5)]
        }
    }

    /// `ts` are fresh temps of type `ty`, made in this order.
    pub open spec fn fresh_all(o: Context, f: Context, ts: Seq<TempIdx>, ty: Type) -> bool {
        &&& forall|i: int| 0 <= i < ts.len() ==> #[trigger] fresh_temp(o, f, ts[i], ty)
        &&& forall|i: int, j: int| 0 <= i < j < ts.len() ==> (#[trigger] ts[i]).0 < (#[trigger] ts[j]).0
    }

    /// From `o` to `f` the IR gained 64-bit signed division or remainder.
    pub open spec fn div_rem_effect(self, o: Context, f: Context, a: ArgsR, want_rem: bool) -> bool {
        let t = Self::div_rem_temps(o, f, want_rem);
        &&& builds(o, f, self.div_rem_ops(f, a, want_rem, t))
        &&& Self::fresh_all(o, f, t, Type::I64)
        &&& self.src_ok(f, a.rs1)
        &&& self.src_ok(f, a.rs2)
        &&& has_cst(f, Type::I64, 0) && has_cst(f, Type::I64, 1) && has_cst(f, Type::I64, u64::MAX)
        &&& has_cst(f, Type::I64, 63)
        &&& f.labels_view().len() == o.labels_view().len()
    }

    /// 64-bit signed division or remainder with RISC-V's special cases.
    #[verifier::spinoff_prover]
    fn gen_div_rem(&self, ir: &mut Context, a: &ArgsR, want_rem: bool) -> (ok: bool)
        requires
            room(*old(ir), 32),
            a.valid(),
        ensures
            ok,
            self.div_rem_effect(*old(ir), *final(ir), *a, want_rem),
    {
        let g = Ghost(*ir);
        let ghost o = *ir;
        proof {
            lemma_begin(*ir);
        }
        let s1 = self.gpr_or_zero(ir, g, a.rs1);
        let s2 = self.gpr_or_zero(ir, g, a.rs2);
        let zero = constant(ir, g, Type::I64, 0);
        let one = constant(ir, g, Type::I64, 1);
        let neg1 = constant(ir, g, Type::I64, u64::MAX);
        let safe = temp(ir, g, Type::I64);
        emit_movcond(ir, g, Type::I64, safe, s2, zero, one, s2, Cond::Eq);
        emit_movcond(ir, g, Type::I64, safe, safe, neg1, one, safe, Cond::Eq);
        let ah = temp(ir, g, Type::I64);
        let c63 = constant(ir, g, Type::I64, 63);
        emit_binop(ir, g, BinOp::Sar, Type::I64, ah, s1, c63);
        let quot = temp(ir, g, Type::I64);
        let rem = temp(ir, g, Type::I64);
        emit_divs2(ir, g, Type::I64, quot, rem, s1, ah, safe);
        let ghost m = *ir;
        let ghost ts: Seq<TempIdx>;
        if want_rem {
            let r = temp(ir, g, Type::I64);
            emit_movcond(ir, g, Type::I64, r, s2, zero, s1, rem, Cond::Eq);
            emit_movcond(ir, g, Type::I64, r, s2, neg1, zero, r, Cond::Eq);
            self.gen_set_gpr(ir, g, a.rd, r);
            proof {
                ts = seq![safe, ah, quot, rem, r];
            }
        } else {
            let neg_s1 = temp(ir, g, Type::I64);
            emit_neg(ir, g, Type::I64, neg_s1, s1);
            let r = temp(ir, g, Type::I64);
            emit_movcond(ir, g, Type::I64, r, s2, zero, neg1, quot, Cond::Eq);
            emit_movcond(ir, g, Type::I64, r, s2, neg1, neg_s1, r, Cond::Eq);
            self.gen_set_gpr(ir, g, a.rd, r);
            proof {
                ts = seq![safe, ah, quot, rem, neg_s1, r];
            }
        }
        assert(out2_temp(o, *ir, 3) == rem);
        assert(Self::div_rem_temps(o, *ir, want_rem) =~= ts);
        assert(emitted(o, *ir) =~= self.div_rem_ops(*ir, *a, want_rem, ts));
        true
    }

    /// The ops of 64-bit unsigned division or remainder, with RISC-V's results
    /// for a zero divisor (quotient all ones, remainder the dividend). The
    /// temps `t` are: safe divisor, quotient, remainder, result.
    pub open spec fn divu_remu_ops(self, f: Context, a: ArgsR, want_rem: bool, t: Seq<TempIdx>) -> Seq<OpShape> {
        let s1 = self.src(f, a.rs1);
        let s2 = self.src(f, a.rs2);
        let zero = cst(f, Type::I64, 0);
        seq![
            sel_eq(Type::I64, t[0], s2, zero, cst(f, Type::I64, 1), s2),
            (Opcode::DivU2, Type::I64, seq![t[1], t[2], s1, zero, t[0]]),
        ] + if want_rem {
            seq![sel_eq(Type::I64, t[3], s2, zero, s1, t[2])]
        } else {
            seq![sel_eq(Type::I64, t[3], s2, zero, cst(f, Type::I64, u64::MAX), t[1])]
        } + self.set_gpr_ops(a.rd, t[3])
    }

    /// The temps that `divu_remu_ops` names, read back from the ops.
    pub open spec fn divu_remu_temps(o: Context, f: Context) -> Seq<TempIdx> {
        seq![out_temp(o, f, 0), out_temp(o, f, 1), out2_temp(o, f, 1), out_temp(o, f, 2)]
    }

    /// From `o` to `f` the IR gained 64-bit unsigned division or remainder.
    pub open spec fn divu_remu_effect(self, o: Context, f: Context, a: ArgsR, want_rem: bool) -> bool {
        let t = Self::divu_remu_temps(o, f);
        &&& builds(o, f, self.divu_remu_ops(f, a, want_rem, t))
        &&& Self::fresh_all(o, f, t, Type::I64)
        &&& self.src_ok(f, a.rs1)
        &&& self.src_ok(f, a.rs2)
        &&& has_cst(f, Type::I64, 0) && has_cst(f, Type::I64, 1)
        &&& !want_rem ==> has_cst(f, Type::I64, u64::MAX)
        &&& f.labels_view().len() == o.labels_view().len()
    }

    /// 64-bit unsigned division or remainder with RISC-V's special case.
    #[verifier::spinoff_prover]
    fn gen_divu_remu(&self, ir: &mut Context, a: &ArgsR, want_rem: bool) -> (ok: bool)
        requires
            room(*old(ir), 32),
            a.valid(),
        ensures
            ok,
            self.divu_remu_effect(*old(ir), *final(ir), *a, want_rem),
    {
        let g = Ghost(*ir);
        let ghost o = *ir;
        proof {
            lemma_begin(*ir);
        }
        let s1 = self.gpr_or_zero(ir, g, a.rs1);
        let s2 = self.gpr_or_zero(ir, g, a.rs2);
        let zero = constant(ir, g, Type::I64, 0);
        let one = constant(ir, g, Type::I64, 1);
        let safe = temp(ir, g, Type::I64);
        emit_movcond(ir, g, Type::I64, safe, s2, zero, one, s2, Cond::Eq);
        let quot = temp(ir, g, Type::I64);
        let rem = temp(ir, g, Type::I64);
        emit_divu2(ir, g, Type::I64, quot, rem, s1, zero, safe);
        let ghost ts: Seq<TempIdx>;
        if want_rem {
            let r = temp(ir, g, Type::I64);
            emit_movcond(ir, g, Type::I64, r, s2, zero, s1, rem, Cond::Eq);
            self.gen_set_gpr(ir, g, a.rd, r);
            proof {
                ts = seq![safe, quot, rem, r];
            }
        } else {
            let neg1 = constant(ir, g, Type::I64, u64::MAX);
            let r = temp(ir, g, Type::I64);
            emit_movcond(ir, g, Type::I64, r, s2, zero, neg1, quot, Cond::Eq);
            self.gen_set_gpr(ir, g, a.rd, r);
            proof {
                ts = seq![safe, quot, rem, r];
            }
        }
        assert(out2_temp(o, *ir, 1) == rem);
        assert(Self::divu_remu_temps(o, *ir) =~= ts);
        assert(emitted(o, *ir) =~= self.divu_remu_ops(*ir, *a, want_rem, ts));
        true
    }

    /// `div rd, rs1, rs2`.
    pub fn trans_div(&mut self, ir: &mut Context, a: &ArgsR) -> (ok: bool)
        requires
            room(*old(ir), 32),
            a.valid(),
        ensures
            ok,
            *final(self) == *old(self),
            old(self).div_rem_effect(*old(ir), *final(ir), *a, false),
    {
        self.gen_div_rem(ir, a, false)
    }

    /// `rem rd, rs1, rs2`.
    pub fn trans_rem(&mut self, ir: &mut Context, a: &ArgsR) -> (ok: bool)
        requires
            room(*old(ir), 32),
            a.valid(),
        ensures
            ok,
            *final(self) == *old(self),
            old(self).div_rem_effect(*old(ir), *final(ir), *a, true),
    {
        self.gen_div_rem(ir, a, true)
    }

    /// `divu rd, rs1, rs2`.
    pub fn trans_divu(&mut self, ir: &mut Context, a: &ArgsR) -> (ok: bool)
        requires
            room(*old(ir), 32),
            a.valid(),
        ensures
            ok,
            *final(self) == *old(self),
            old(self).divu_remu_effect(*old(ir), *final(ir), *a, false),
    {
        self.gen_divu_remu(ir, a, false)
    }

    /// `remu rd, rs1, rs2`.
    pub fn trans_remu(&mut self, ir: &mut Context, a: &ArgsR) -> (ok: bool)
        requires
            room(*old(ir), 32),
            a.valid(),
        ensures
            ok,
            *final(self) == *old(self),
            old(self).divu_remu_effect(*old(ir), *final(ir), *a, true),
    {
        self.gen_divu_remu(ir, a, true)
    }
}

impl RiscvDisasContext {
    /// The ops of 32-bit signed division or remainder (sign-extended into
    /// `rd`), with the same special cases as the 64-bit form. The temps `t`
    /// are: low words of `rs1` and `rs2`, safe divisor, sign word, quotient,
    /// remainder, and the result (after the negated dividend when the
    /// quotient is wanted).
    pub open spec fn div_rem_w_ops(self, f: Context, a: ArgsR, want_rem: bool, t: Seq<TempIdx>) -> Seq<OpShape> {
        let zero = cst(f, Type::I32, 0);
        let one = cst(f, Type::I32, 1);
        let neg1 = cst(f, Type::I32, 0xffff_ffff);
        seq![
            (Opcode::ExtrlI64I32, Type::I32, seq![t[0], self.src(f, a.rs1)]),
            (Opcode::ExtrlI64I32, Type::I32, seq![t[1], self.src(f, a.rs2)]),
            sel_eq(Type::I32, t[2], t[1], zero, one, t[1]),
            sel_eq(Type::I32, t[2], t[2], neg1, one, t[2]),
            (Opcode::Sar, Type::I32, seq![t[3], t[0], cst(f, Type::I32, 31)]),
            (Opcode::DivS2, Type::I32, seq![t[4], t[5], t[0], t[3], t[2]]),
        ] + if want_rem {
            seq![sel_eq(Type::I32, t[6], t[1], zero, t[0], t[5]), sel_eq(Type::I32, t[6], t[1], neg1, zero, t[6])]
                + self.set_gpr_sx32_ops(a.rd, t[6])
        } else {
            seq![
                (Opcode::Neg, Type::I32, seq![t[6], t[0]]),
                sel_eq(Type::I32, t[7], t[1], zero, neg1, t[4]),
                sel_eq(Type::I32, t[7], t[1], neg1, t[6], t[7]),
            ] + self.set_gpr_sx32_ops(a.rd, t[7])
        }
    }

    /// The temps that `div_rem_w_ops` names, read back from the ops.
    pub open spec fn div_rem_w_temps(o: Context, f: Context, want_rem: bool) -> Seq<TempIdx> {
        seq![
            out_temp(o, f, 0),
            out_temp(o, f, 1),
            out_temp(o, f, 2),
            out_temp(o, f, 4),
            out_temp(o, f, 5),
            out2_temp(o, f, 5),
            out_temp(o, f, 6),
        ] + if want_rem {
            seq![]
        } else {
            seq![out_temp(o, f, 7)]
        }
    }

    /// From `o` to `f` the IR gained 32-bit signed division or remainder.
    pub open spec fn div_rem_w_effect(self, o: Context, f: Context, a: ArgsR, want_rem: bool) -> bool {
        let t = Self::div_rem_w_temps(o, f, want_rem);
        &&& builds(o, f, self.div_rem_w_ops(f, a, want_rem, t))
        &&& Self::fresh_all(o, f, t, Type::I32)
        &&& self.src_ok(f, a.rs1)
        &&& self.src_ok(f, a.rs2)
        &&& has_cst(f, Type::I32, 0) && has_cst(f, Type::I32, 1) && has_cst(f, Type::I32, 0xffff_ffff)
        &&& has_cst(f, Type::I32, 31)
        &&& f.labels_view().len() == o.labels_view().len()
    }

    /// 32-bit signed division or remainder.
    #[verifier::spinoff_prover]
    fn gen_div_rem_w(&self, ir: &mut Context, a: &ArgsR, want_rem: bool) -> (ok: bool)
        requires
            room(*old(ir), 32),
            a.valid(),
        ensures
            ok,
            self.div_rem_w_effect(*old(ir), *final(ir), *a, want_rem),
    {
        let g = Ghost(*ir);
        let ghost o = *ir;
        proof {
            lemma_begin(*ir);
        }
        let s1 = self.gpr_or_zero(ir, g, a.rs1);
        let s2 = self.gpr_or_zero(ir, g, a.rs2);
        let a32 = temp(ir, g, Type::I32);
        emit_extrl_i64_i32(ir, g, a32, s1);
        let b32 = temp(ir, g, Type::I32);
        emit_extrl_i64_i32(ir, g, b32, s2);
        let zero = constant(ir, g, Type::I32, 0);
        let one = constant(ir, g, Type::I32, 1);
        let neg1 = constant(ir, g, Type::I32, 0xffff_ffff);
        let safe = temp(ir, g, Type::I32);
        emit_movcond(ir, g, Type::I32, safe, b32, zero, one, b32, Cond::Eq);
        emit_movcond(ir, g, Type::I32, safe, safe, neg1, one, safe, Cond::Eq);
        let ah = temp(ir, g, Type::I32);
        let c31 = constant(ir, g, Type::I32, 31);
        emit_binop(ir, g, BinOp::Sar, Type::I32, ah, a32, c31);
        let quot = temp(ir, g, Type::I32);
        let rem = temp(ir, g, Type::I32);
        emit_divs2(ir, g, Type::I32, quot, rem, a32, ah, safe);
        let ghost ts: Seq<TempIdx>;
        if want_rem {
            let r = temp(ir, g, Type::I32);
            emit_movcond(ir, g, Type::I32, r, b32, zero, a32, rem, Cond::Eq);
            emit_movcond(ir, g, Type::I32, r, b32, neg1, zero, r, Cond::Eq);
            self.gen_set_gpr_sx32(ir, g, a.rd, r);
            proof {
                ts = seq![a32, b32, safe, ah, quot, rem, r];
            }
        } else {
            let neg_a = temp(ir, g, Type::I32);
            emit_neg(ir, g, Type::I32, neg_a, a32);
            let r = temp(ir, g, Type::I32);
            emit_movcond(ir, g, Type::I32, r, b32, zero, neg1, quot, Cond::Eq);
            emit_movcond(ir, g, Type::I32, r, b32, neg1, neg_a, r, Cond::Eq);
            self.gen_set_gpr_sx32(ir, g, a.rd, r);
            proof {
                ts = seq![a32, b32, safe, ah, quot, rem, neg_a, r];
            }
        }
        assert(out2_temp(o, *ir, 5) == rem);
        assert(Self::div_rem_w_temps(o, *ir, want_rem) =~= ts);
        assert(emitted(o, *ir) =~= self.div_rem_w_ops(*ir, *a, want_rem, ts));
        true
    }

    /// The ops of 32-bit unsigned division or remainder (sign-extended into
    /// `rd`). The temps `t` are: low words of `rs1` and `rs2`, safe divisor,
    /// quotient, remainder, result.
    pub open spec fn divu_remu_w_ops(self, f: Context, a: ArgsR, want_rem: bool, t: Seq<TempIdx>) -> Seq<OpShape> {
        let zero = cst(f, Type::I32, 0);
        seq![
            (Opcode::ExtrlI64I32, Type::I32, seq![t[0], self.src(f, a.rs1)]),
            (Opcode::ExtrlI64I32, Type::I32, seq![t[1], self.src(f, a.rs2)]),
            sel_eq(Type::I32, t[2], t[1], zero, cst(f, Type::I32, 1), t[1]),
            (Opcode::DivU2, Type::I32, seq![t[3], t[4], t[0], zero, t[2]]),
        ] + if want_rem {
            seq![sel_eq(Type::I32, t[5], t[1], zero, t[0], t[4])]
        } else {
            seq![sel_eq(Type::I32, t[5], t[1], zero, cst(f, Type::I32, 0xffff_ffff), t[3])]
        } + self.set_gpr_sx32_ops(a.rd, t[5])
    }

    /// The temps that `divu_remu_w_ops` names, read back from the ops.
    pub open spec fn divu_remu_w_temps(o: Context, f: Context) -> Seq<TempIdx> {
        seq![out_temp(o, f, 0), out_temp(o, f, 1), out_temp(o, f, 2), out_temp(o, f, 3), out2_temp(o, f, 3), out_temp(o, f, 4)]
    }

    /// From `o` to `f` the IR gained 32-bit unsigned division or remainder.
    pub open spec fn divu_remu_w_effect(self, o: Context, f: Context, a: ArgsR, want_rem: bool) -> bool {
        let t = Self::divu_remu_w_temps(o, f);
        &&& builds(o, f, self.divu_remu_w_ops(f, a, want_rem, t))
        &&& Self::fresh_all(o, f, t, Type::I32)
        &&& self.src_ok(f, a.rs1)
        &&& self.src_ok(f, a.rs2)
        &&& has_cst(f, Type::I32, 0) && has_cst(f, Type::I32, 1)
        &&& !want_rem ==> has_cst(f, Type::I32, 0xffff_ffff)
        &&& f.labels_view().len() == o.labels_view().len()
    }

    /// 32-bit unsigned division or remainder.
    #[verifier::spinoff_prover]
    fn gen_divu_remu_w(&self, ir: &mut Context, a: &ArgsR, want_rem: bool) -> (ok: bool)
        requires
            room(*old(ir), 32),
            a.valid(),
        ensures
            ok,
            self.divu_remu_w_effect(*old(ir), *final(ir), *a, want_rem),
    {
        let g = Ghost(*ir);
        let ghost o = *ir;
        proof {
            lemma_begin(*ir);
        }
        let s1 = self.gpr_or_zero(ir, g, a.rs1);
        let s2 = self.gpr_or_zero(ir, g, a.rs2);
        let a32 = temp(ir, g, Type::I32);
        emit_extrl_i64_i32(ir, g, a32, s1);
        let b32 = temp(ir, g, Type::I32);
        emit_extrl_i64_i32(ir, g, b32, s2);
        let zero = constant(ir, g, Type::I32, 0);
        let one = constant(ir, g, Type::I32, 1);
        let safe = temp(ir, g, Type::I32);
        emit_movcond(ir, g, Type::I32, safe, b32, zero, one, b32, Cond::Eq);
        let quot = temp(ir, g, Type::I32);
        let rem = temp(ir, g, Type::I32);
        emit_divu2(ir, g, Type::I32, quot, rem, a32, zero, safe);
        let ghost ts: Seq<TempIdx>;
        if want_rem {
            let r = temp(ir, g, Type::I32);
            emit_movcond(ir, g, Type::I32, r, b32, zero, a32, rem, Cond::Eq);
            self.gen_set_gpr_sx32(ir, g, a.rd, r);
            proof {
                ts = seq![a32, b32, safe, quot, rem, r];
            }
        } else {
            let max = constant(ir, g, Type::I32, 0xffff_ffff);
            let r = temp(ir, g, Type::I32);
            emit_movcond(ir, g, Type::I32, r, b32, zero, max, quot, Cond::Eq);
            self.gen_set_gpr_sx32(ir, g, a.rd, r);
            proof {
                ts = seq![a32, b32, safe, quot, rem, r];
            }
        }
        assert(out2_temp(o, *ir, 3) == rem);
        assert(Self::divu_remu_w_temps(o, *ir) =~= ts);
        assert(emitted(o, *ir) =~= self.divu_remu_w_ops(*ir, *a, want_rem, ts));
        true
    }

    /// `divw rd, rs1, rs2`.
    pub fn trans_divw(&mut self, ir: &mut Context, a: &ArgsR) -> (ok: bool)
        requires
            room(*old(ir), 32),
            a.valid(),
        ensures
            ok,
            *final(self) == *old(self),
            old(self).div_rem_w_effect(*old(ir), *final(ir), *a, false),
    {
        self.gen_div_rem_w(ir, a, false)
    }

    /// `remw rd, rs1, rs2`.
    pub fn trans_remw(&mut self, ir: &mut Context, a: &ArgsR) -> (ok: bool)
        requires
            room(*old(ir), 32),
            a.valid(),
        ensures
            ok,
            *final(self) == *old(self),
            old(self).div_rem_w_effect(*old(ir), *final(ir), *a, true),
    {
        self.gen_div_rem_w(ir, a, true)
    }

    /// `divuw rd, rs1, rs2`.
    pub fn trans_divuw(&mut self, ir: &mut Context, a: &ArgsR) -> (ok: bool)
        requires
            room(*old(ir), 32),
            a.valid(),
        ensures
            ok,
            *final(self) == *old(self),
            old(self).divu_remu_w_effect(*old(ir), *final(ir), *a, false),
    {
        self.gen_divu_remu_w(ir, a, false)
    }

    /// `remuw rd, rs1, rs2`.
    pub fn trans_remuw(&mut self, ir: &mut Context, a: &ArgsR) -> (ok: bool)
        requires
            room(*old(ir), 32),
            a.valid(),
        ensures
            ok,
            *final(self) == *old(self),
            old(self).divu_remu_w_effect(*old(ir), *final(ir), *a, true),
    {
        self.gen_divu_remu_w(ir, a, true)
    }
}

/// Barrier kind: every ordering, placed before a store-release.
pub const MB_RELEASE: u32 = 0x2f;
/// Barrier kind: every ordering, placed after a load-acquire.
pub const MB_ACQUIRE: u32 = 0x1f;

/// The atomic read-modify-write operations.
#[derive(Debug, Clone, Copy, PartialEq, Eq, Structural)]
pub enum AmoKind {
    /// `new = old op rs2`.
    Arith(BinOp),
    /// `new = rs2`.
    Swap,
    /// `new = (old cond rs2) ? old : rs2`.
    Select(Cond),
}

impl RiscvDisasContext {
    /// The release barrier of an atomic with the `rl` bit set.
    pub open spec fn rel_ops(a: ArgsAtomic) -> Seq<OpShape> {
        if a.rl != 0 {
            seq![(Opcode::Mb, Type::I64, seq![spec_carg(MB_RELEASE)])]
        } else {
            seq![]
        }
    }

    /// The acquire barrier of an atomic with the `aq` bit set.
    pub open spec fn acq_ops(a: ArgsAtomic) -> Seq<OpShape> {
        if a.aq != 0 {
            seq![(Opcode::Mb, Type::I64, seq![spec_carg(MB_ACQUIRE)])]
        } else {
            seq![]
        }
    }

    /// Number of ops before the load of an atomic.
    pub open spec fn rel_len(a: ArgsAtomic) -> int {
        if a.rl != 0 {
            1
        } else {
            0
        }
    }

    /// The ops of `lr`: load the word at `rs1` into `v`, record the
    /// reservation address and value, write `v` to `rd`.
    pub open spec fn lr_ops(self, f: Context, a: ArgsAtomic, memop: MemOp, v: TempIdx) -> Seq<OpShape> {
        Self::rel_ops(a) + seq![(Opcode::QemuLd, Type::I64, seq![v, self.src(f, a.rs1), memarg(memop)])] + Self::acq_ops(a)
            + seq![
            (Opcode::Mov, Type::I64, seq![self.load_res, self.src(f, a.rs1)]),
            (Opcode::Mov, Type::I64, seq![self.load_val, v]),
        ] + self.set_gpr_ops(a.rd, v)
    }

    /// From `o` to `f` the IR gained `lr` of `memop`.
    pub open spec fn lr_effect(self, o: Context, f: Context, a: ArgsAtomic, memop: MemOp) -> bool {
        let v = out_temp(o, f, Self::rel_len(a));
        &&& builds(o, f, self.lr_ops(f, a, memop, v))
        &&& fresh_temp(o, f, v, Type::I64)
        &&& self.src_ok(f, a.rs1)
        &&& f.labels_view().len() == o.labels_view().len()
    }

    /// Load-reserved.
    #[verifier::spinoff_prover]
    fn gen_lr(&self, ir: &mut Context, a: &ArgsAtomic, memop: MemOp) -> (ok: bool)
        requires
            room(*old(ir), 32),
            a.valid(),
        ensures
            ok,
            self.lr_effect(*old(ir), *final(ir), *a, memop),
    {
        let g = Ghost(*ir);
        let ghost o = *ir;
        proof {
            lemma_begin(*ir);
        }
        let addr = self.gpr_or_zero(ir, g, a.rs1);
        if a.rl != 0 {
            emit_mb(ir, g, MB_RELEASE);
        }
        let val = temp(ir, g, Type::I64);
        emit_qemu_ld(ir, g, Type::I64, val, addr, memop.bits() as u32);
        let ghost m = *ir;
        if a.aq != 0 {
            emit_mb(ir, g, MB_ACQUIRE);
        }
        emit_mov(ir, g, Type::I64, self.load_res, addr);
        emit_mov(ir, g, Type::I64, self.load_val, val);
        self.gen_set_gpr(ir, g, a.rd, val);
        assert(out_temp(o, *ir, Self::rel_len(*a)) == out_temp(o, m, Self::rel_len(*a)));
        assert(emitted(o, *ir) =~= self.lr_ops(*ir, *a, memop, val));
        true
    }

    /// The ops of `sc` on a single-threaded guest: the store always
    /// succeeds, `rd` gets zero and the reservation is cleared.
    pub open spec fn sc_ops(self, f: Context, a: ArgsAtomic, memop: MemOp) -> Seq<OpShape> {
        seq![(Opcode::QemuSt, Type::I64, seq![self.src(f, a.rs2), self.src(f, a.rs1), memarg(memop)])]
            + self.set_gpr_ops(a.rd, cst(f, Type::I64, 0)) + seq![
            (Opcode::Mov, Type::I64, seq![self.load_res, cst(f, Type::I64, u64::MAX)]),
        ]
    }

    /// From `o` to `f` the IR gained `sc` of `memop`.
    pub open spec fn sc_effect(self, o: Context, f: Context, a: ArgsAtomic, memop: MemOp) -> bool {
        &&& builds(o, f, self.sc_ops(f, a, memop))
        &&& self.src_ok(f, a.rs1)
        &&& self.src_ok(f, a.rs2)
        &&& has_cst(f, Type::I64, 0)
        &&& has_cst(f, Type::I64, u64::MAX)
        &&& f.labels_view().len() == o.labels_view().len()
    }

    /// Store-conditional.
    fn gen_sc(&self, ir: &mut Context, a: &ArgsAtomic, memop: MemOp) -> (ok: bool)
        requires
            room(*old(ir), 32),
            a.valid(),
        ensures
            ok,
            self.sc_effect(*old(ir), *final(ir), *a, memop),
    {
        let g = Ghost(*ir);
        let ghost o = *ir;
        proof {
            lemma_begin(*ir);
        }
        let addr = self.gpr_or_zero(ir, g, a.rs1);
        let src2 = self.gpr_or_zero(ir, g, a.rs2);
        emit_qemu_st(ir, g, Type::I64, src2, addr, memop.bits() as u32);
        let zero = constant(ir, g, Type::I64, 0);
        self.gen_set_gpr(ir, g, a.rd, zero);
        let neg1 = constant(ir, g, Type::I64, u64::MAX);
        emit_mov(ir, g, Type::I64, self.load_res, neg1);
        assert(emitted(o, *ir) =~= self.sc_ops(*ir, *a, memop));
        true
    }

    /// The ops that compute the value an atomic stores from the loaded `old`
    /// into `new`, and the value stored.
    pub open spec fn amo_new_ops(self, f: Context, a: ArgsAtomic, kind: AmoKind, old: TempIdx, new: TempIdx) -> Seq<OpShape> {
        match kind {
            AmoKind::Arith(op) => seq![(op.opcode(), Type::I64, seq![new, old, self.src(f, a.rs2)])],
            AmoKind::Swap => seq![],
            AmoKind::Select(cond) => seq![
                (Opcode::MovCond, Type::I64, seq![new, old, self.src(f, a.rs2), old, self.src(f, a.rs2), spec_carg(cond.spec_code())]),
            ],
        }
    }

    /// The value an atomic stores.
    pub open spec fn amo_stored(self, f: Context, a: ArgsAtomic, kind: AmoKind, new: TempIdx) -> TempIdx {
        match kind {
            AmoKind::Swap => self.src(f, a.rs2),
            _ => new,
        }
    }

    /// The ops of an atomic read-modify-write on a single-threaded guest:
    /// load `old` from `rs1`, store the new value, write `old` to `rd`.
    pub open spec fn amo_ops(self, f: Context, a: ArgsAtomic, kind: AmoKind, memop: MemOp, old: TempIdx, new: TempIdx) -> Seq<OpShape> {
        Self::rel_ops(a) + seq![(Opcode::QemuLd, Type::I64, seq![old, self.src(f, a.rs1), memarg(memop)])]
            + self.amo_new_ops(f, a, kind, old, new) + seq![
            (Opcode::QemuSt, Type::I64, seq![self.amo_stored(f, a, kind, new), self.src(f, a.rs1), memarg(memop)]),
        ] + Self::acq_ops(a) + self.set_gpr_ops(a.rd, old)
    }

    /// From `o` to `f` the IR gained the atomic `kind` of `memop`.
    pub open spec fn amo_effect(self, o: Context, f: Context, a: ArgsAtomic, kind: AmoKind, memop: MemOp) -> bool {
        let k = Self::rel_len(a);
        let old = out_temp(o, f, k);
        let new = out_temp(o, f, k + 1);
        &&& builds(o, f, self.amo_ops(f, a, kind, memop, old, new))
        &&& fresh_temp(o, f, old, Type::I64)
        &&& !(kind is Swap) ==> fresh2(o, f, old, new, Type::I64)
        &&& self.src_ok(f, a.rs1)
        &&& self.src_ok(f, a.rs2)
        &&& f.labels_view().len() == o.labels_view().len()
    }

    /// Atomic read-modify-write `new = old op rs2`, with the barriers that
    /// the `aq` and `rl` bits ask for.
    #[verifier::spinoff_prover]
    fn gen_amo(&self, ir: &mut Context, a: &ArgsAtomic, op: BinOp, memop: MemOp) -> (ok: bool)
        requires
            room(*old(ir), 32),
            a.valid(),
        ensures
            ok,
            self.amo_effect(*old(ir), *final(ir), *a, AmoKind::Arith(op), memop),
    {
        let g = Ghost(*ir);
        let ghost o = *ir;
        proof {
            lemma_begin(*ir);
        }
        let addr = self.gpr_or_zero(ir, g, a.rs1);
        if a.rl != 0 {
            emit_mb(ir, g, MB_RELEASE);
        }
        let old_v = temp(ir, g, Type::I64);
        emit_qemu_ld(ir, g, Type::I64, old_v, addr, memop.bits() as u32);
        let ghost m = *ir;
        let src2 = self.gpr_or_zero(ir, g, a.rs2);
        let new = temp(ir, g, Type::I64);
        emit_binop(ir, g, op, Type::I64, new, old_v, src2);
        let ghost m2 = *ir;
        emit_qemu_st(ir, g, Type::I64, new, addr, memop.bits() as u32);
        if a.aq != 0 {
            emit_mb(ir, g, MB_ACQUIRE);
        }
        self.gen_set_gpr(ir, g, a.rd, old_v);
        assert(out_temp(o, *ir, Self::rel_len(*a)) == out_temp(o, m, Self::rel_len(*a)));
        assert(out_temp(o, *ir, Self::rel_len(*a) + 1) == out_temp(o, m2, Self::rel_len(*a) + 1));
        assert(emitted(o, *ir) =~= self.amo_ops(*ir, *a, AmoKind::Arith(op), memop, old_v, new));
        true
    }

    /// Atomic swap: store `rs2`, return the old value.
    #[verifier::spinoff_prover]
    fn gen_amo_swap(&self, ir: &mut Context, a: &ArgsAtomic, memop: MemOp) -> (ok: bool)
        requires
            room(*old(ir), 32),
            a.valid(),
        ensures
            ok,
            self.amo_effect(*old(ir), *final(ir), *a, AmoKind::Swap, memop),
    {
        let g = Ghost(*ir);
        let ghost o = *ir;
        proof {
            lemma_begin(*ir);
        }
        let addr = self.gpr_or_zero(ir, g, a.rs1);
        if a.rl != 0 {
            emit_mb(ir, g, MB_RELEASE);
        }
        let old_v = temp(ir, g, Type::I64);
        emit_qemu_ld(ir, g, Type::I64, old_v, addr, memop.bits() as u32);
        let ghost m = *ir;
        let src2 = self.gpr_or_zero(ir, g, a.rs2);
        emit_qemu_st(ir, g, Type::I64, src2, addr, memop.bits() as u32);
        if a.aq != 0 {
            emit_mb(ir, g, MB_ACQUIRE);
        }
        self.gen_set_gpr(ir, g, a.rd, old_v);
        assert(out_temp(o, *ir, Self::rel_len(*a)) == out_temp(o, m, Self::rel_len(*a)));
        assert(emitted(o, *ir) =~= self.amo_ops(
            *ir,
            *a,
            AmoKind::Swap,
            memop,
            old_v,
            out_temp(o, *ir, Self::rel_len(*a) + 1),
        ));
        true
    }

    /// Atomic min/max: `new = (old cond rs2) ? old : rs2`.
    #[verifier::spinoff_prover]
    fn gen_amo_minmax(&self, ir: &mut Context, a: &ArgsAtomic, cond: Cond, memop: MemOp) -> (ok: bool)
        requires
            room(*old(ir), 32),
            a.valid(),
        ensures
            ok,
            self.amo_effect(*old(ir), *final(ir), *a, AmoKind::Select(cond), memop),
    {
        let g = Ghost(*ir);
        let ghost o = *ir;
        proof {
            lemma_begin(*ir);
        }
        let addr = self.gpr_or_zero(ir, g, a.rs1);
        if a.rl != 0 {
            emit_mb(ir, g, MB_RELEASE);
        }
        let old_v = temp(ir, g, Type::I64);
        emit_qemu_ld(ir, g, Type::I64, old_v, addr, memop.bits() as u32);
        let ghost m = *ir;
        let src2 = self.gpr_or_zero(ir, g, a.rs2);
        let new = temp(ir, g, Type::I64);
        emit_movcond(ir, g, Type::I64, new, old_v, src2, old_v, src2, cond);
        let ghost m2 = *ir;
        emit_qemu_st(ir, g, Type::I64, new, addr, memop.bits() as u32);
        if a.aq != 0 {
            emit_mb(ir, g, MB_ACQUIRE);
        }
        self.gen_set_gpr(ir, g, a.rd, old_v);
        assert(out_temp(o, *ir, Self::rel_len(*a)) == out_temp(o, m, Self::rel_len(*a)));
        assert(out_temp(o, *ir, Self::rel_len(*a) + 1) == out_temp(o, m2, Self::rel_len(*a) + 1));
        assert(emitted(o, *ir) =~= self.amo_ops(*ir, *a, AmoKind::Select(cond), memop, old_v, new));
        true
    }
}

impl RiscvDisasContext {
    /// `lr.w rd, (rs1)`.
    pub fn trans_lr_w(&mut self, ir: &mut Context, a: &ArgsAtomic) -> (ok: bool)
        requires
            room(*old(ir), 32),
            a.valid(),
        ensures
            ok,
            *final(self) == *old(self),
            old(self).lr_effect(*old(ir), *final(ir), *a, MemOp(6)),
    {
        self.gen_lr(ir, a, MemOp::sl())
    }

    /// `sc.w rd, rs2, (rs1)`.
    pub fn trans_sc_w(&mut self, ir: &mut Context, a: &ArgsAtomic) -> (ok: bool)
        requires
            room(*old(ir), 32),
            a.valid(),
        ensures
            ok,
            *final(self) == *old(self),
            old(self).sc_effect(*old(ir), *final(ir), *a, MemOp(2)),
    {
        self.gen_sc(ir, a, MemOp::ul())
    }

    /// `amoswap.w rd, rs2, (rs1)`.
    pub fn trans_amoswap_w(&mut self, ir: &mut Context, a: &ArgsAtomic) -> (ok: bool)
        requires
            room(*old(ir), 32),
            a.valid(),
        ensures
            ok,
            *final(self) == *old(self),
            old(self).amo_effect(*old(ir), *final(ir), *a, AmoKind::Swap, MemOp(6)),
    {
        self.gen_amo_swap(ir, a, MemOp::sl())
    }

    /// `amoadd.w rd, rs2, (rs1)`.
    pub fn trans_amoadd_w(&mut self, ir: &mut Context, a: &ArgsAtomic) -> (ok: bool)
        requires
            room(*old(ir), 32),
            a.valid(),
        ensures
            ok,
            *final(self) == *old(self),
            old(self).amo_effect(*old(ir), *final(ir), *a, AmoKind::Arith(BinOp::Add), MemOp(6)),
    {
        self.gen_amo(ir, a, BinOp::Add, MemOp::sl())
    }

    /// `amoxor.w rd, rs2, (rs1)`.
    pub fn trans_amoxor_w(&mut self, ir: &mut Context, a: &ArgsAtomic) -> (ok: bool)
        requires
            room(*old(ir), 32),
            a.valid(),
        ensures
            ok,
            *final(self) == *old(self),
            old(self).amo_effect(*old(ir), *final(ir), *a, AmoKind::Arith(BinOp::Xor), MemOp(6)),
    {
        self.gen_amo(ir, a, BinOp::Xor, MemOp::sl())
    }

    /// `amoand.w rd, rs2, (rs1)`.
    pub fn trans_amoand_w(&mut self, ir: &mut Context, a: &ArgsAtomic) -> (ok: bool)
        requires
            room(*old(ir), 32),
            a.valid(),
        ensures
            ok,
            *final(self) == *old(self),
            old(self).amo_effect(*old(ir), *final(ir), *a, AmoKind::Arith(BinOp::And), MemOp(6)),
    {
        self.gen_amo(ir, a, BinOp::And, MemOp::sl())
    }

    /// `amoor.w rd, rs2, (rs1)`.
    pub fn trans_amoor_w(&mut self, ir: &mut Context, a: &ArgsAtomic) -> (ok: bool)
        requires
            room(*old(ir), 32),
            a.valid(),
        ensures
            ok,
            *final(self) == *old(self),
            old(self).amo_effect(*old(ir), *final(ir), *a, AmoKind::Arith(BinOp::Or), MemOp(6)),
    {
        self.gen_amo(ir, a, BinOp::Or, MemOp::sl())
    }

    /// `amomin.w rd, rs2, (rs1)`.
    pub fn trans_amomin_w(&mut self, ir: &mut Context, a: &ArgsAtomic) -> (ok: bool)
        requires
            room(*old(ir), 32),
            a.valid(),
        ensures
            ok,
            *final(self) == *old(self),
            old(self).amo_effect(*old(ir), *final(ir), *a, AmoKind::Select(Cond::Lt), MemOp(6)),
    {
        self.gen_amo_minmax(ir, a, Cond::Lt, MemOp::sl())
    }

    /// `amomax.w rd, rs2, (rs1)`.
    pub fn trans_amomax_w(&mut self, ir: &mut Context, a: &ArgsAtomic) -> (ok: bool)
        requires
            room(*old(ir), 32),
            a.valid(),
        ensures
            ok,
            *final(self) == *old(self),
            old(self).amo_effect(*old(ir), *final(ir), *a, AmoKind::Select(Cond::Gt), MemOp(6)),
    {
        self.gen_amo_minmax(ir, a, Cond::Gt, MemOp::sl())
    }

    /// `amominu.w rd, rs2, (rs1)`.
    pub fn trans_amominu_w(&mut self, ir: &mut Context, a: &ArgsAtomic) -> (ok: bool)
        requires
            room(*old(ir), 32),
            a.valid(),
        ensures
            ok,
            *final(self) == *old(self),
            old(self).amo_effect(*old(ir), *final(ir), *a, AmoKind::Select(Cond::Ltu), MemOp(6)),
    {
        self.gen_amo_minmax(ir, a, Cond::Ltu, MemOp::sl())
    }

    /// `amomaxu.w rd, rs2, (rs1)`.
    pub fn trans_amomaxu_w(&mut self, ir: &mut Context, a: &ArgsAtomic) -> (ok: bool)
        requires
            room(*old(ir), 32),
            a.valid(),
        ensures
            ok,
            *final(self) == *old(self),
            old(self).amo_effect(*old(ir), *final(ir), *a, AmoKind::Select(Cond::Gtu), MemOp(6)),
    {
        self.gen_amo_minmax(ir, a, Cond::Gtu, MemOp::sl())
    }

    /// `lr.d rd, (rs1)`.
    pub fn trans_lr_d(&mut self, ir: &mut Context, a: &ArgsAtomic) -> (ok: bool)
        requires
            room(*old(ir), 32),
            a.valid(),
        ensures
            ok,
            *final(self) == *old(self),
            old(self).lr_effect(*old(ir), *final(ir), *a, MemOp(3)),
    {
        self.gen_lr(ir, a, MemOp::uq())
    }

    /// `sc.d rd, rs2, (rs1)`.
    pub fn trans_sc_d(&mut self, ir: &mut Context, a: &ArgsAtomic) -> (ok: bool)
        requires
            room(*old(ir), 32),
            a.valid(),
        ensures
            ok,
            *final(self) == *old(self),
            old(self).sc_effect(*old(ir), *final(ir), *a, MemOp(3)),
    {
        self.gen_sc(ir, a, MemOp::uq())
    }

    /// `amoswap.d rd, rs2, (rs1)`.
    pub fn trans_amoswap_d(&mut self, ir: &mut Context, a: &ArgsAtomic) -> (ok: bool)
        requires
            room(*old(ir), 32),
            a.valid(),
        ensures
            ok,
            *final(self) == *old(self),
            old(self).amo_effect(*old(ir), *final(ir), *a, AmoKind::Swap, MemOp(3)),
    {
        self.gen_amo_swap(ir, a, MemOp::uq())
    }

    /// `amoadd.d rd, rs2, (rs1)`.
    pub fn trans_amoadd_d(&mut self, ir: &mut Context, a: &ArgsAtomic) -> (ok: bool)
        requires
            room(*old(ir), 32),
            a.valid(),
        ensures
            ok,
            *final(self) == *old(self),
            old(self).amo_effect(*old(ir), *final(ir), *a, AmoKind::Arith(BinOp::Add), MemOp(3)),
    {
        self.gen_amo(ir, a, BinOp::Add, MemOp::uq())
    }

    /// `amoxor.d rd, rs2, (rs1)`.
    pub fn trans_amoxor_d(&mut self, ir: &mut Context, a: &ArgsAtomic) -> (ok: bool)
        requires
            room(*old(ir), 32),
            a.valid(),
        ensures
            ok,
            *final(self) == *old(self),
            old(self).amo_effect(*old(ir), *final(ir), *a, AmoKind::Arith(BinOp::Xor), MemOp(3)),
    {
        self.gen_amo(ir, a, BinOp::Xor, MemOp::uq())
    }

    /// `amoand.d rd, rs2, (rs1)`.
    pub fn trans_amoand_d(&mut self, ir: &mut Context, a: &ArgsAtomic) -> (ok: bool)
        requires
            room(*old(ir), 32),
            a.valid(),
        ensures
            ok,
            *final(self) == *old(self),
            old(self).amo_effect(*old(ir), *final(ir), *a, AmoKind::Arith(BinOp::And), MemOp(3)),
    {
        self.gen_amo(ir, a, BinOp::And, MemOp::uq())
    }

    /// `amoor.d rd, rs2, (rs1)`.
    pub fn trans_amoor_d(&mut self, ir: &mut Context, a: &ArgsAtomic) -> (ok: bool)
        requires
            room(*old(ir), 32),
            a.valid(),
        ensures
            ok,
            *final(self) == *old(self),
            old(self).amo_effect(*old(ir), *final(ir), *a, AmoKind::Arith(BinOp::Or), MemOp(3)),
    {
        self.gen_amo(ir, a, BinOp::Or, MemOp::uq())
    }

    /// `amomin.d rd, rs2, (rs1)`.
    pub fn trans_amomin_d(&mut self, ir: &mut Context, a: &ArgsAtomic) -> (ok: bool)
        requires
            room(*old(ir), 32),
            a.valid(),
        ensures
            ok,
            *final(self) == *old(self),
            old(self).amo_effect(*old(ir), *final(ir), *a, AmoKind::Select(Cond::Lt), MemOp(3)),
    {
        self.gen_amo_minmax(ir, a, Cond::Lt, MemOp::uq())
    }

    /// `amomax.d rd, rs2, (rs1)`.
    pub fn trans_amomax_d(&mut self, ir: &mut Context, a: &ArgsAtomic) -> (ok: bool)
        requires
            room(*old(ir), 32),
            a.valid(),
        ensures
            ok,
            *final(self) == *old(self),
            old(self).amo_effect(*old(ir), *final(ir), *a, AmoKind::Select(Cond::Gt), MemOp(3)),
    {
        self.gen_amo_minmax(ir, a, Cond::Gt, MemOp::uq())
    }

    /// `amominu.d rd, rs2, (rs1)`.
    pub fn trans_amominu_d(&mut self, ir: &mut Context, a: &ArgsAtomic) -> (ok: bool)
        requires
            room(*old(ir), 32),
            a.valid(),
        ensures
            ok,
            *final(self) == *old(self),
            old(self).amo_effect(*old(ir), *final(ir), *a, AmoKind::Select(Cond::Ltu), MemOp(3)),
    {
        self.gen_amo_minmax(ir, a, Cond::Ltu, MemOp::uq())
    }

    /// `amomaxu.d rd, rs2, (rs1)`.
    pub fn trans_amomaxu_d(&mut self, ir: &mut Context, a: &ArgsAtomic) -> (ok: bool)
        requires
            room(*old(ir), 32),
            a.valid(),
        ensures
            ok,
            *final(self) == *old(self),
            old(self).amo_effect(*old(ir), *final(ir), *a, AmoKind::Select(Cond::Gtu), MemOp(3)),
    {
        self.gen_amo_minmax(ir, a, Cond::Gtu, MemOp::uq())
    }
}

/// User-level CSR numbers.
pub const CSR_USTATUS: i64 = 0x000;
pub const CSR_FFLAGS: i64 = 0x001;
pub const CSR_FRM: i64 = 0x002;
pub const CSR_FCSR: i64 = 0x003;
pub const CSR_UIE: i64 = 0x004;
pub const CSR_UTVEC: i64 = 0x005;
pub const CSR_USCRATCH: i64 = 0x040;
pub const CSR_UEPC: i64 = 0x041;
pub const CSR_UCAUSE: i64 = 0x042;
pub const CSR_UTVAL: i64 = 0x043;
pub const CSR_UIP: i64 = 0x044;
pub const CSR_CYCLE: i64 = 0xC00;
pub const CSR_TIME: i64 = 0xC01;
pub const CSR_INSTRET: i64 = 0xC02;

/// The offset of the CPU-state field that backs `csr`, for the CSRs that
/// are read and written as they are.
pub open spec fn csr_field(csr: i64) -> Option<i64> {
    if csr == CSR_USTATUS {
        Some(USTATUS_OFFSET)
    } else if csr == CSR_UIE {
        Some(UIE_OFFSET)
    } else if csr == CSR_UTVEC {
        Some(UTVEC_OFFSET)
    } else if csr == CSR_USCRATCH {
        Some(USCRATCH_OFFSET)
    } else if csr == CSR_UEPC {
        Some(UEPC_OFFSET)
    } else if csr == CSR_UCAUSE {
        Some(UCAUSE_OFFSET)
    } else if csr == CSR_UTVAL {
        Some(UTVAL_OFFSET)
    } else if csr == CSR_UIP {
        Some(UIP_OFFSET)
    } else {
        None
    }
}

/// The read-only counters, which read as zero.
pub open spec fn is_counter(csr: i64) -> bool {
    csr == CSR_CYCLE || csr == CSR_TIME || csr == CSR_INSTRET
}

/// The CSRs that can be written.
pub open spec fn csr_writable(csr: i64) -> bool {
    csr == CSR_FFLAGS || csr == CSR_FRM || csr == CSR_FCSR || csr_field(csr) is Some
}

/// The CSRs that can be read.
pub open spec fn csr_readable(csr: i64) -> bool {
    csr_writable(csr) || is_counter(csr)
}

/// Number of ops a read of `csr` takes.
pub open spec fn csr_read_len(csr: i64) -> int {
    if csr == CSR_FFLAGS || csr == CSR_FRM {
        2
    } else if csr == CSR_FCSR {
        6
    } else if csr_field(csr) is Some {
        1
    } else {
        0
    }
}

/// Number of ops a write of `csr` takes.
pub open spec fn csr_write_len(csr: i64) -> int {
    if csr == CSR_FFLAGS || csr == CSR_FRM {
        6
    } else if csr == CSR_FCSR {
        9
    } else if csr_field(csr) is Some {
        1
    } else {
        0
    }
}

impl RiscvDisasContext {
    /// The load `t = env[off]`.
    pub open spec fn ld_op(self, t: TempIdx, off: i64) -> OpShape {
        (Opcode::Ld, Type::I64, seq![t, self.env, spec_carg(off as u32)])
    }

    /// The store `env[off] = t`.
    pub open spec fn st_op(self, t: TempIdx, off: i64) -> OpShape {
        (Opcode::St, Type::I64, seq![t, self.env, spec_carg(off as u32)])
    }

    /// The ops that mark the FP state dirty in `ustatus`; their temps are
    /// the outputs of the ops `k` to `k + 2` past `o`.
    pub open spec fn fs_dirty_ops(self, o: Context, f: Context, k: int) -> Seq<OpShape> {
        let s = out_temp(o, f, k);
        let c = out_temp(o, f, k + 1);
        let n = out_temp(o, f, k + 2);
        seq![
            self.ld_op(s, USTATUS_OFFSET),
            (Opcode::And, Type::I64, seq![c, s, cst(f, Type::I64, !USTATUS_FS_MASK)]),
            (Opcode::Or, Type::I64, seq![n, c, cst(f, Type::I64, USTATUS_FS_DIRTY)]),
            self.st_op(n, USTATUS_OFFSET),
        ]
    }

    /// The temps and constants of `fs_dirty_ops` are there.
    pub open spec fn fs_dirty_ok(o: Context, f: Context, k: int) -> bool {
        &&& fresh2(o, f, out_temp(o, f, k), out_temp(o, f, k + 1), Type::I64)
        &&& fresh2(o, f, out_temp(o, f, k + 1), out_temp(o, f, k + 2), Type::I64)
        &&& has_cst(f, Type::I64, !USTATUS_FS_MASK)
        &&& has_cst(f, Type::I64, USTATUS_FS_DIRTY)
    }

    /// Mark the FP state dirty.
    fn gen_set_fs_dirty(&self, ir: &mut Context, g: Ghost<Context>)
        requires
            grown(g@, *old(ir)),
            room(*old(ir), 8),
        ensures
            adds(g@, *old(ir), *final(ir), self.fs_dirty_ops(*old(ir), *final(ir), 0)),
            Self::fs_dirty_ok(*old(ir), *final(ir), 0),
            spent(*old(ir), *final(ir), 6),
            final(ir).labels_view().len() == old(ir).labels_view().len(),
    {
        let ghost o = *ir;
        let status = temp(ir, g, Type::I64);
        emit_ld(ir, g, Type::I64, status, self.env, USTATUS_OFFSET);
        let clear = constant(ir, g, Type::I64, !USTATUS_FS_MASK);
        let cleared = temp(ir, g, Type::I64);
        emit_binop(ir, g, BinOp::And, Type::I64, cleared, status, clear);
        let dirty = constant(ir, g, Type::I64, USTATUS_FS_DIRTY);
        let new_status = temp(ir, g, Type::I64);
        emit_binop(ir, g, BinOp::Or, Type::I64, new_status, cleared, dirty);
        emit_st(ir, g, Type::I64, new_status, self.env, USTATUS_OFFSET);
        assert(emitted(g@, *ir) =~= emitted(g@, o) + self.fs_dirty_ops(o, *ir, 0));
    }

    /// The ops that read `csr`, starting `k` ops past `o`.
    pub open spec fn csr_read_ops(self, o: Context, f: Context, k: int, csr: i64) -> Seq<OpShape> {
        let t0 = out_temp(o, f, k);
        let t1 = out_temp(o, f, k + 1);
        let t2 = out_temp(o, f, k + 2);
        let t4 = out_temp(o, f, k + 4);
        let t5 = out_temp(o, f, k + 5);
        if csr == CSR_FFLAGS {
            seq![self.ld_op(t0, FFLAGS_OFFSET), (Opcode::And, Type::I64, seq![t1, t0, cst(f, Type::I64, FFLAGS_MASK)])]
        } else if csr == CSR_FRM {
            seq![self.ld_op(t0, FRM_OFFSET), (Opcode::And, Type::I64, seq![t1, t0, cst(f, Type::I64, FRM_MASK)])]
        } else if csr == CSR_FCSR {
            seq![
                self.ld_op(t0, FFLAGS_OFFSET),
                (Opcode::And, Type::I64, seq![t0, t0, cst(f, Type::I64, FFLAGS_MASK)]),
                self.ld_op(t2, FRM_OFFSET),
                (Opcode::And, Type::I64, seq![t2, t2, cst(f, Type::I64, FRM_MASK)]),
                (Opcode::Shl, Type::I64, seq![t4, t2, cst(f, Type::I64, 5)]),
                (Opcode::Or, Type::I64, seq![t5, t0, t4]),
            ]
        } else if csr_field(csr) is Some {
            seq![self.ld_op(t0, csr_field(csr)->0)]
        } else {
            seq![]
        }
    }

    /// The temp that holds the value read from `csr`.
    pub open spec fn csr_read_val(self, o: Context, f: Context, k: int, csr: i64) -> TempIdx {
        if csr == CSR_FFLAGS || csr == CSR_FRM {
            out_temp(o, f, k + 1)
        } else if csr == CSR_FCSR {
            out_temp(o, f, k + 5)
        } else if csr_field(csr) is Some {
            out_temp(o, f, k)
        } else {
            cst(f, Type::I64, 0)
        }
    }

    /// The temps and constants of a read of `csr` are there.
    pub open spec fn csr_read_ok(o: Context, f: Context, k: int, csr: i64) -> bool {
        if csr == CSR_FFLAGS || csr == CSR_FRM {
            &&& fresh2(o, f, out_temp(o, f, k), out_temp(o, f, k + 1), Type::I64)
            &&& has_cst(f, Type::I64, if csr == CSR_FFLAGS { FFLAGS_MASK } else { FRM_MASK })
        } else if csr == CSR_FCSR {
            &&& fresh2(o, f, out_temp(o, f, k), out_temp(o, f, k + 2), Type::I64)
            &&& fresh2(o, f, out_temp(o, f, k + 2), out_temp(o, f, k + 4), Type::I64)
            &&& fresh2(o, f, out_temp(o, f, k + 4), out_temp(o, f, k + 5), Type::I64)
            &&& has_cst(f, Type::I64, FFLAGS_MASK) && has_cst(f, Type::I64, FRM_MASK) && has_cst(f, Type::I64, 5)
        } else if csr_field(csr) is Some {
            fresh_temp(o, f, out_temp(o, f, k), Type::I64)
        } else if is_counter(csr) {
            has_cst(f, Type::I64, 0)
        } else {
            true
        }
    }

    /// Read `csr`; `None` for a CSR that user mode cannot read, with no IR made.
    fn gen_csr_read(&self, ir: &mut Context, g: Ghost<Context>, csr: i64) -> (r: Option<TempIdx>)
        requires
            grown(g@, *old(ir)),
            room(*old(ir), 16),
        ensures
            r is Some == csr_readable(csr),
            r is Some ==> r->0 == self.csr_read_val(*old(ir), *final(ir), 0, csr),
            adds(g@, *old(ir), *final(ir), self.csr_read_ops(*old(ir), *final(ir), 0, csr)),
            Self::csr_read_ok(*old(ir), *final(ir), 0, csr),
            spent(*old(ir), *final(ir), 10),
            final(ir).labels_view().len() == old(ir).labels_view().len(),
    {
        let ghost o = *ir;
        let r = if csr == CSR_FFLAGS || csr == CSR_FRM {
            let off = if csr == CSR_FFLAGS { FFLAGS_OFFSET } else { FRM_OFFSET };
            let mask_val = if csr == CSR_FFLAGS { FFLAGS_MASK } else { FRM_MASK };
            let v = temp(ir, g, Type::I64);
            emit_ld(ir, g, Type::I64, v, self.env, off);
            let mask = constant(ir, g, Type::I64, mask_val);
            let out = temp(ir, g, Type::I64);
            emit_binop(ir, g, BinOp::And, Type::I64, out, v, mask);
            Some(out)
        } else if csr == CSR_FCSR {
            let fflags = temp(ir, g, Type::I64);
            emit_ld(ir, g, Type::I64, fflags, self.env, FFLAGS_OFFSET);
            let fmask = constant(ir, g, Type::I64, FFLAGS_MASK);
            emit_binop(ir, g, BinOp::And, Type::I64, fflags, fflags, fmask);
            let frm = temp(ir, g, Type::I64);
            emit_ld(ir, g, Type::I64, frm, self.env, FRM_OFFSET);
            let rmask = constant(ir, g, Type::I64, FRM_MASK);
            emit_binop(ir, g, BinOp::And, Type::I64, frm, frm, rmask);
            let shift = constant(ir, g, Type::I64, 5);
            let frm_shift = temp(ir, g, Type::I64);
            emit_binop(ir, g, BinOp::Shl, Type::I64, frm_shift, frm, shift);
            let out = temp(ir, g, Type::I64);
            emit_binop(ir, g, BinOp::Or, Type::I64, out, fflags, frm_shift);
            Some(out)
        } else if csr == CSR_USTATUS || csr == CSR_UIE || csr == CSR_UTVEC || csr == CSR_USCRATCH || csr == CSR_UEPC
            || csr == CSR_UCAUSE || csr == CSR_UTVAL || csr == CSR_UIP {
            let off = if csr == CSR_USTATUS {
                USTATUS_OFFSET
            } else if csr == CSR_UIE {
                UIE_OFFSET
            } else if csr == CSR_UTVEC {
                UTVEC_OFFSET
            } else if csr == CSR_USCRATCH {
                USCRATCH_OFFSET
            } else if csr == CSR_UEPC {
                UEPC_OFFSET
            } else if csr == CSR_UCAUSE {
                UCAUSE_OFFSET
            } else if csr == CSR_UTVAL {
                UTVAL_OFFSET
            } else {
                UIP_OFFSET
            };
            let v = temp(ir, g, Type::I64);
            emit_ld(ir, g, Type::I64, v, self.env, off);
            Some(v)
        } else if csr == CSR_CYCLE || csr == CSR_TIME || csr == CSR_INSTRET {
            let v = constant(ir, g, Type::I64, 0);
            Some(v)
        } else {
            None
        };
        proof {
            if r is None || is_counter(csr) {
                lemma_begin(o);
            }
        }
        assert(emitted(g@, *ir) =~= emitted(g@, o) + self.csr_read_ops(o, *ir, 0, csr));
        r
    }
}

/// How a CSR instruction forms the value it writes.
#[derive(Debug, Clone, Copy, PartialEq, Eq, Structural)]
pub enum CsrMode {
    /// `csrrw`: the source.
    Write,
    /// `csrrs`: old value with the source's bits set.
    SetBits,
    /// `csrrc`: old value with the source's bits cleared.
    ClearBits,
}

impl RiscvDisasContext {
    /// The ops that write `val` to `csr`, starting `k` ops past `o`.
    pub open spec fn csr_write_ops(self, o: Context, f: Context, k: int, csr: i64, val: TempIdx) -> Seq<OpShape> {
        let t0 = out_temp(o, f, k);
        let t2 = out_temp(o, f, k + 2);
        if csr == CSR_FFLAGS {
            seq![(Opcode::And, Type::I64, seq![t0, val, cst(f, Type::I64, FFLAGS_MASK)]), self.st_op(t0, FFLAGS_OFFSET)]
                + self.fs_dirty_ops(o, f, k + 2)
        } else if csr == CSR_FRM {
            seq![(Opcode::And, Type::I64, seq![t0, val, cst(f, Type::I64, FRM_MASK)]), self.st_op(t0, FRM_OFFSET)]
                + self.fs_dirty_ops(o, f, k + 2)
        } else if csr == CSR_FCSR {
            seq![
                (Opcode::And, Type::I64, seq![t0, val, cst(f, Type::I64, FFLAGS_MASK)]),
                self.st_op(t0, FFLAGS_OFFSET),
                (Opcode::Shr, Type::I64, seq![t2, val, cst(f, Type::I64, 5)]),
                (Opcode::And, Type::I64, seq![t2, t2, cst(f, Type::I64, FRM_MASK)]),
                self.st_op(t2, FRM_OFFSET),
            ] + self.fs_dirty_ops(o, f, k + 5)
        } else if csr_field(csr) is Some {
            seq![self.st_op(val, csr_field(csr)->0)]
        } else {
            seq![]
        }
    }

    /// The temps and constants of a write of `csr` are there.
    pub open spec fn csr_write_ok(o: Context, f: Context, k: int, csr: i64) -> bool {
        if csr == CSR_FFLAGS || csr == CSR_FRM {
            &&& fresh_temp(o, f, out_temp(o, f, k), Type::I64)
            &&& out_temp(o, f, k).0 < out_temp(o, f, k + 2).0
            &&& Self::fs_dirty_ok(o, f, k + 2)
            &&& has_cst(f, Type::I64, if csr == CSR_FFLAGS { FFLAGS_MASK } else { FRM_MASK })
        } else if csr == CSR_FCSR {
            &&& fresh2(o, f, out_temp(o, f, k), out_temp(o, f, k + 2), Type::I64)
            &&& out_temp(o, f, k + 2).0 < out_temp(o, f, k + 5).0
            &&& Self::fs_dirty_ok(o, f, k + 5)
            &&& has_cst(f, Type::I64, FFLAGS_MASK) && has_cst(f, Type::I64, FRM_MASK) && has_cst(f, Type::I64, 5)
        } else {
            true
        }
    }

    /// Write `val` to `csr`; false, with no IR made, for a CSR that user
    /// mode cannot write.
    fn gen_csr_write(&self, ir: &mut Context, g: Ghost<Context>, csr: i64, val: TempIdx) -> (ok: bool)
        requires
            grown(g@, *old(ir)),
            room(*old(ir), 20),
        ensures
            ok == csr_writable(csr),
            adds(g@, *old(ir), *final(ir), self.csr_write_ops(*old(ir), *final(ir), 0, csr, val)),
            Self::csr_write_ok(*old(ir), *final(ir), 0, csr),
            spent(*old(ir), *final(ir), 14),
            final(ir).labels_view().len() == old(ir).labels_view().len(),
    {
        let ghost o = *ir;
        let ok = if csr == CSR_FFLAGS || csr == CSR_FRM {
            let off = if csr == CSR_FFLAGS { FFLAGS_OFFSET } else { FRM_OFFSET };
            let mask_val = if csr == CSR_FFLAGS { FFLAGS_MASK } else { FRM_MASK };
            let mask = constant(ir, g, Type::I64, mask_val);
            let v = temp(ir, g, Type::I64);
            emit_binop(ir, g, BinOp::And, Type::I64, v, val, mask);
            emit_st(ir, g, Type::I64, v, self.env, off);
            let ghost m = *ir;
            self.gen_set_fs_dirty(ir, g);
            assert(out_temp(o, *ir, 0) == out_temp(o, m, 0));
            true
        } else if csr == CSR_FCSR {
            let fmask = constant(ir, g, Type::I64, FFLAGS_MASK);
            let fflags = temp(ir, g, Type::I64);
            emit_binop(ir, g, BinOp::And, Type::I64, fflags, val, fmask);
            emit_st(ir, g, Type::I64, fflags, self.env, FFLAGS_OFFSET);
            let shift = constant(ir, g, Type::I64, 5);
            let frm = temp(ir, g, Type::I64);
            emit_binop(ir, g, BinOp::Shr, Type::I64, frm, val, shift);
            let rmask = constant(ir, g, Type::I64, FRM_MASK);
            emit_binop(ir, g, BinOp::And, Type::I64, frm, frm, rmask);
            emit_st(ir, g, Type::I64, frm, self.env, FRM_OFFSET);
            let ghost m = *ir;
            self.gen_set_fs_dirty(ir, g);
            assert(out_temp(o, *ir, 0) == out_temp(o, m, 0));
            assert(out_temp(o, *ir, 2) == out_temp(o, m, 2));
            true
        } else if csr == CSR_USTATUS || csr == CSR_UIE || csr == CSR_UTVEC || csr == CSR_USCRATCH || csr == CSR_UEPC
            || csr == CSR_UCAUSE || csr == CSR_UTVAL || csr == CSR_UIP {
            let off = if csr == CSR_USTATUS {
                USTATUS_OFFSET
            } else if csr == CSR_UIE {
                UIE_OFFSET
            } else if csr == CSR_UTVEC {
                UTVEC_OFFSET
            } else if csr == CSR_USCRATCH {
                USCRATCH_OFFSET
            } else if csr == CSR_UEPC {
                UEPC_OFFSET
            } else if csr == CSR_UCAUSE {
                UCAUSE_OFFSET
            } else if csr == CSR_UTVAL {
                UTVAL_OFFSET
            } else {
                UIP_OFFSET
            };
            emit_st(ir, g, Type::I64, val, self.env, off);
            true
        } else {
            proof {
                lemma_begin(o);
            }
            false
        };
        assert(emitted(g@, *ir) =~= emitted(g@, o) + self.csr_write_ops(o, *ir, 0, csr, val));
        ok
    }

    /// The value a CSR instruction combines with the old value: `rs1`, or
    /// its number as a 5-bit immediate.
    pub open spec fn csr_src(self, f: Context, a: ArgsCsr, imm: bool) -> TempIdx {
        if imm {
            cst(f, Type::I64, a.rs1 as u64)
        } else {
            self.src(f, a.rs1)
        }
    }

    /// Whether the instruction writes the CSR: `csrrw` always, the others
    /// unless their source is x0 / zero.
    pub open spec fn csr_writes(a: ArgsCsr, mode: CsrMode) -> bool {
        mode is Write || a.rs1 != 0
    }

    /// Whether the instruction succeeds: the CSR can be read, and written
    /// when it writes.
    pub open spec fn csr_ok(a: ArgsCsr, mode: CsrMode) -> bool {
        csr_readable(a.csr) && (!Self::csr_writes(a, mode) || csr_writable(a.csr))
    }

    /// Number of ops that form the new value.
    pub open spec fn csr_mod_len(mode: CsrMode) -> int {
        match mode {
            CsrMode::Write => 0,
            CsrMode::SetBits => 1,
            CsrMode::ClearBits => 2,
        }
    }

    /// The ops that form the new value from the old value `v`, starting `k`
    /// ops past `o`.
    pub open spec fn csr_mod_ops(self, o: Context, f: Context, k: int, a: ArgsCsr, mode: CsrMode, imm: bool, v: TempIdx) -> Seq<OpShape> {
        match mode {
            CsrMode::Write => seq![],
            CsrMode::SetBits => seq![(Opcode::Or, Type::I64, seq![out_temp(o, f, k), v, self.csr_src(f, a, imm)])],
            CsrMode::ClearBits => seq![
                (Opcode::Not, Type::I64, seq![out_temp(o, f, k), self.csr_src(f, a, imm)]),
                (Opcode::And, Type::I64, seq![out_temp(o, f, k + 1), v, out_temp(o, f, k)]),
            ],
        }
    }

    /// The new value.
    pub open spec fn csr_new_val(self, o: Context, f: Context, k: int, a: ArgsCsr, mode: CsrMode, imm: bool) -> TempIdx {
        match mode {
            CsrMode::Write => self.csr_src(f, a, imm),
            CsrMode::SetBits => out_temp(o, f, k),
            CsrMode::ClearBits => out_temp(o, f, k + 1),
        }
    }

    /// The ops of a CSR instruction: read the old value, write the new one
    /// when it writes, and give the old value to `rd` when it succeeds.
    pub open spec fn csr_ops(self, o: Context, f: Context, a: ArgsCsr, mode: CsrMode, imm: bool) -> Seq<OpShape> {
        let l = csr_read_len(a.csr);
        let v = self.csr_read_val(o, f, 0, a.csr);
        if !csr_readable(a.csr) {
            seq![]
        } else {
            self.csr_read_ops(o, f, 0, a.csr) + (if Self::csr_writes(a, mode) {
                self.csr_mod_ops(o, f, l, a, mode, imm, v) + self.csr_write_ops(
                    o,
                    f,
                    l + Self::csr_mod_len(mode),
                    a.csr,
                    self.csr_new_val(o, f, l, a, mode, imm),
                )
            } else {
                seq![]
            }) + (if Self::csr_ok(a, mode) {
                self.set_gpr_ops(a.rd, v)
            } else {
                seq![]
            })
        }
    }

    /// From `o` to `f` the IR gained the CSR instruction `a`.
    pub open spec fn csr_effect(self, o: Context, f: Context, a: ArgsCsr, mode: CsrMode, imm: bool) -> bool {
        let l = csr_read_len(a.csr);
        &&& builds(o, f, self.csr_ops(o, f, a, mode, imm))
        &&& csr_readable(a.csr) ==> Self::csr_read_ok(o, f, 0, a.csr)
        &&& csr_readable(a.csr) && Self::csr_writes(a, mode) ==> {
            &&& Self::csr_write_ok(o, f, l + Self::csr_mod_len(mode), a.csr)
            &&& imm ==> has_cst(f, Type::I64, a.rs1 as u64)
            &&& !imm ==> self.src_ok(f, a.rs1)
            &&& mode is SetBits ==> fresh_temp(o, f, out_temp(o, f, l), Type::I64)
            &&& mode is ClearBits ==> fresh2(o, f, out_temp(o, f, l), out_temp(o, f, l + 1), Type::I64)
        }
        &&& f.labels_view().len() == o.labels_view().len()
    }

    /// Form the new value from the old value `v` and write it to the CSR;
    /// false, once the value is formed, when the CSR cannot be written.
    fn gen_csr_update(&self, ir: &mut Context, g: Ghost<Context>, a: &ArgsCsr, mode: CsrMode, imm: bool, v: TempIdx) -> (ok: bool)
        requires
            grown(g@, *old(ir)),
            room(*old(ir), 32),
            a.valid(),
        ensures
            ok == csr_writable(a.csr),
            adds(
                g@,
                *old(ir),
                *final(ir),
                self.csr_mod_ops(*old(ir), *final(ir), 0, *a, mode, imm, v) + self.csr_write_ops(
                    *old(ir),
                    *final(ir),
                    Self::csr_mod_len(mode),
                    a.csr,
                    self.csr_new_val(*old(ir), *final(ir), 0, *a, mode, imm),
                ),
            ),
            Self::csr_write_ok(*old(ir), *final(ir), Self::csr_mod_len(mode), a.csr),
            imm ==> has_cst(*final(ir), Type::I64, a.rs1 as u64),
            !imm ==> self.src_ok(*final(ir), a.rs1),
            mode is SetBits ==> fresh_temp(*old(ir), *final(ir), out_temp(*old(ir), *final(ir), 0), Type::I64),
            mode is ClearBits ==> fresh2(*old(ir), *final(ir), out_temp(*old(ir), *final(ir), 0), out_temp(*old(ir), *final(ir), 1), Type::I64),
            spent(*old(ir), *final(ir), 20),
            final(ir).labels_view().len() == old(ir).labels_view().len(),
    {
        let ghost o = *ir;
        let src = if imm {
            constant(ir, g, Type::I64, a.rs1 as u64)
        } else {
            self.gpr_or_zero(ir, g, a.rs1)
        };
        let new = match mode {
            CsrMode::Write => src,
            CsrMode::SetBits => {
                let new = temp(ir, g, Type::I64);
                emit_binop(ir, g, BinOp::Or, Type::I64, new, v, src);
                new
            },
            CsrMode::ClearBits => {
                let inv = temp(ir, g, Type::I64);
                emit_not(ir, g, Type::I64, inv, src);
                let new = temp(ir, g, Type::I64);
                emit_binop(ir, g, BinOp::And, Type::I64, new, v, inv);
                new
            },
        };
        let ghost m = *ir;
        assert(emitted(g@, m) =~= emitted(g@, o) + self.csr_mod_ops(o, m, 0, *a, mode, imm, v));
        let ok = self.gen_csr_write(ir, g, a.csr, new);
        proof {
            lemma_out_shift(o, m, *ir, Self::csr_mod_len(mode));
        }
        assert(forall|j: int| 0 <= j < Self::csr_mod_len(mode) ==> #[trigger] out_temp(o, *ir, j) == out_temp(o, m, j));
        assert(self.csr_mod_ops(o, *ir, 0, *a, mode, imm, v) == self.csr_mod_ops(o, m, 0, *a, mode, imm, v));
        assert(new == self.csr_new_val(o, *ir, 0, *a, mode, imm));
        assert(emitted(g@, *ir) =~= emitted(g@, o) + (self.csr_mod_ops(o, *ir, 0, *a, mode, imm, v) + self.csr_write_ops(
            o,
            *ir,
            Self::csr_mod_len(mode),
            a.csr,
            new,
        )));
        ok
    }

    /// The shared body of the CSR instructions.
    #[verifier::rlimit(80)]
    #[verifier::spinoff_prover]
    fn gen_csr_op(&self, ir: &mut Context, a: &ArgsCsr, mode: CsrMode, imm: bool) -> (ok: bool)
        requires
            room(*old(ir), 64),
            a.valid(),
        ensures
            ok == Self::csr_ok(*a, mode),
            self.csr_effect(*old(ir), *final(ir), *a, mode, imm),
    {
        let g = Ghost(*ir);
        let ghost o = *ir;
        proof {
            lemma_begin(*ir);
        }
        let old_v = match self.gen_csr_read(ir, g, a.csr) {
            Some(v) => v,
            None => {
                assert(emitted(o, *ir) =~= self.csr_ops(o, *ir, *a, mode, imm));
                return false;
            },
        };
        let ghost m1 = *ir;
        assert(self.csr_read_ops(o, m1, 0, a.csr).len() == csr_read_len(a.csr));
        assert(emitted(g@, m1).len() == emitted(g@, o).len() + csr_read_len(a.csr));
        assert(m1.ops_view().len() == o.ops_view().len() + csr_read_len(a.csr));
        let writes = match mode {
            CsrMode::Write => true,
            _ => a.rs1 != 0,
        };
        if writes {
            if !self.gen_csr_update(ir, g, a, mode, imm, old_v) {
                proof {
                    lemma_out_shift(o, m1, *ir, csr_read_len(a.csr));
                }
                assert(emitted(o, *ir) =~= self.csr_ops(o, *ir, *a, mode, imm));
                return false;
            }
            proof {
                lemma_out_shift(o, m1, *ir, csr_read_len(a.csr));
            }
        }
        let ghost m3 = *ir;
        self.gen_set_gpr(ir, g, a.rd, old_v);
        assert(forall|j: int| 0 <= j < m3.ops_view().len() - o.ops_view().len() ==> #[trigger] out_temp(o, *ir, j) == out_temp(o, m3, j));
        assert(emitted(o, *ir) =~= self.csr_ops(o, *ir, *a, mode, imm));
        true
    }
}

impl RiscvDisasContext {
    /// `csrrw rd, csr, rs1`.
    pub fn trans_csrrw(&mut self, ir: &mut Context, a: &ArgsCsr) -> (ok: bool)
        requires
            room(*old(ir), 64),
            a.valid(),
        ensures
            ok == Self::csr_ok(*a, CsrMode::Write),
            *final(self) == *old(self),
            old(self).csr_effect(*old(ir), *final(ir), *a, CsrMode::Write, false),
    {
        self.gen_csr_op(ir, a, CsrMode::Write, false)
    }

    /// `csrrs rd, csr, rs1`.
    pub fn trans_csrrs(&mut self, ir: &mut Context, a: &ArgsCsr) -> (ok: bool)
        requires
            room(*old(ir), 64),
            a.valid(),
        ensures
            ok == Self::csr_ok(*a, CsrMode::SetBits),
            *final(self) == *old(self),
            old(self).csr_effect(*old(ir), *final(ir), *a, CsrMode::SetBits, false),
    {
        self.gen_csr_op(ir, a, CsrMode::SetBits, false)
    }

    /// `csrrc rd, csr, rs1`.
    pub fn trans_csrrc(&mut self, ir: &mut Context, a: &ArgsCsr) -> (ok: bool)
        requires
            room(*old(ir), 64),
            a.valid(),
        ensures
            ok == Self::csr_ok(*a, CsrMode::ClearBits),
            *final(self) == *old(self),
            old(self).csr_effect(*old(ir), *final(ir), *a, CsrMode::ClearBits, false),
    {
        self.gen_csr_op(ir, a, CsrMode::ClearBits, false)
    }

    /// `csrrwi rd, csr, zimm`.
    pub fn trans_csrrwi(&mut self, ir: &mut Context, a: &ArgsCsr) -> (ok: bool)
        requires
            room(*old(ir), 64),
            a.valid(),
        ensures
            ok == Self::csr_ok(*a, CsrMode::Write),
            *final(self) == *old(self),
            old(self).csr_effect(*old(ir), *final(ir), *a, CsrMode::Write, true),
    {
        self.gen_csr_op(ir, a, CsrMode::Write, true)
    }

    /// `csrrsi rd, csr, zimm`.
    pub fn trans_csrrsi(&mut self, ir: &mut Context, a: &ArgsCsr) -> (ok: bool)
        requires
            room(*old(ir), 64),
            a.valid(),
        ensures
            ok == Self::csr_ok(*a, CsrMode::SetBits),
            *final(self) == *old(self),
            old(self).csr_effect(*old(ir), *final(ir), *a, CsrMode::SetBits, true),
    {
        self.gen_csr_op(ir, a, CsrMode::SetBits, true)
    }

    /// `csrrci rd, csr, zimm`.
    pub fn trans_csrrci(&mut self, ir: &mut Context, a: &ArgsCsr) -> (ok: bool)
        requires
            room(*old(ir), 64),
            a.valid(),
        ensures
            ok == Self::csr_ok(*a, CsrMode::ClearBits),
            *final(self) == *old(self),
            old(self).csr_effect(*old(ir), *final(ir), *a, CsrMode::ClearBits, true),
    {
        self.gen_csr_op(ir, a, CsrMode::ClearBits, true)
    }
}

impl RiscvDisasContext {
    /// The env offset of FP register `idx`.
    pub open spec fn fpr_off(idx: i64) -> i64 {
        ((NUM_GPRS + idx) * 8) as i64
    }

    /// The ops that leave the block with exit value 3 at this instruction
    /// when the FP unit is off (`ustatus.FS` zero), with label `l` after them;
    /// their temps are the outputs of the ops `k` and `k + 1` past `o`.
    pub open spec fn fp_check_ops(self, o: Context, f: Context, k: int, l: u32) -> Seq<OpShape> {
        let st = out_temp(o, f, k);
        let fs = out_temp(o, f, k + 1);
        seq![
            self.ld_op(st, USTATUS_OFFSET),
            (Opcode::And, Type::I64, seq![fs, st, cst(f, Type::I64, USTATUS_FS_MASK)]),
            (Opcode::BrCond, Type::I64, seq![fs, cst(f, Type::I64, 0), spec_carg(Cond::Ne.spec_code()), spec_carg(l)]),
        ] + self.exit_ops(f, self.base.pc_next, 3) + seq![(Opcode::SetLabel, Type::I64, seq![spec_carg(l)])]
    }

    /// The temps and constants of `fp_check_ops` are there.
    pub open spec fn fp_check_ok(self, o: Context, f: Context, k: int) -> bool {
        &&& fresh2(o, f, out_temp(o, f, k), out_temp(o, f, k + 1), Type::I64)
        &&& has_cst(f, Type::I64, USTATUS_FS_MASK)
        &&& has_cst(f, Type::I64, 0)
        &&& has_cst(f, Type::I64, self.base.pc_next)
    }

    /// Trap out of the block when the FP unit is off.
    fn gen_fp_check(&self, ir: &mut Context, g: Ghost<Context>)
        requires
            grown(g@, *old(ir)),
            room(*old(ir), 16),
        ensures
            adds(g@, *old(ir), *final(ir), self.fp_check_ops(*old(ir), *final(ir), 0, old(ir).labels_view().len() as u32)),
            self.fp_check_ok(*old(ir), *final(ir), 0),
            spent(*old(ir), *final(ir), 8),
            final(ir).labels_view().len() == old(ir).labels_view().len() + 1,
    {
        let ghost o = *ir;
        let status = temp(ir, g, Type::I64);
        emit_ld(ir, g, Type::I64, status, self.env, USTATUS_OFFSET);
        let mask = constant(ir, g, Type::I64, USTATUS_FS_MASK);
        let fs = temp(ir, g, Type::I64);
        emit_binop(ir, g, BinOp::And, Type::I64, fs, status, mask);
        let zero = constant(ir, g, Type::I64, 0);
        let ok = label(ir, g);
        emit_brcond(ir, g, Type::I64, fs, zero, Cond::Ne, ok);
        let pc = constant(ir, g, Type::I64, self.base.pc_next);
        emit_mov(ir, g, Type::I64, self.pc, pc);
        emit_exit_tb(ir, g, 3);
        emit_set_label(ir, g, ok);
        assert(emitted(g@, *ir) =~= emitted(g@, o) + self.fp_check_ops(o, *ir, 0, o.labels_view().len() as u32));
    }

    /// Load FP register `idx` from the CPU state into a new temp.
    fn fpr_load(&self, ir: &mut Context, g: Ghost<Context>, idx: i64) -> (t: TempIdx)
        requires
            grown(g@, *old(ir)),
            room(*old(ir), 4),
            is_reg(idx),
        ensures
            adds(g@, *old(ir), *final(ir), seq![self.ld_op(t, Self::fpr_off(idx))]),
            t == out_temp(*old(ir), *final(ir), 0),
            fresh_temp(*old(ir), *final(ir), t, Type::I64),
            spent(*old(ir), *final(ir), 2),
            final(ir).labels_view().len() == old(ir).labels_view().len(),
    {
        let ghost o = *ir;
        let t = temp(ir, g, Type::I64);
        emit_ld(ir, g, Type::I64, t, self.env, fpr_offset(idx as usize));
        assert(emitted(g@, *ir) =~= emitted(g@, o) + seq![self.ld_op(t, Self::fpr_off(idx))]);
        t
    }

    /// Store `val` into FP register `idx`.
    fn fpr_store(&self, ir: &mut Context, g: Ghost<Context>, idx: i64, val: TempIdx)
        requires
            grown(g@, *old(ir)),
            room(*old(ir), 4),
            is_reg(idx),
        ensures
            adds(g@, *old(ir), *final(ir), seq![self.st_op(val, Self::fpr_off(idx))]),
            spent(*old(ir), *final(ir), 1),
            final(ir).labels_view().len() == old(ir).labels_view().len(),
    {
        let ghost o = *ir;
        emit_st(ir, g, Type::I64, val, self.env, fpr_offset(idx as usize));
        assert(emitted(g@, *ir) =~= emitted(g@, o) + seq![self.st_op(val, Self::fpr_off(idx))]);
    }

    /// The ops of an FP load of `memop` into `rd`, NaN-boxing a single.
    pub open spec fn fp_load_ops(self, o: Context, f: Context, a: ArgsI, memop: MemOp, single: bool) -> Seq<OpShape> {
        let k = 10 + Self::addr_len(a.imm);
        let v = out_temp(o, f, k);
        let b = out_temp(o, f, k + 1);
        self.fp_check_ops(o, f, 0, o.labels_view().len() as u32) + self.fs_dirty_ops(o, f, 6) + self.addr_ops(
            f,
            a.rs1,
            a.imm,
            out_temp(o, f, 10),
        ) + seq![(Opcode::QemuLd, Type::I64, seq![v, self.addr_of(f, a.rs1, a.imm, out_temp(o, f, 10)), memarg(memop)])]
            + if single {
            seq![
                (Opcode::Or, Type::I64, seq![b, v, cst(f, Type::I64, 0xffff_ffff_0000_0000u64)]),
                self.st_op(b, Self::fpr_off(a.rd)),
            ]
        } else {
            seq![self.st_op(v, Self::fpr_off(a.rd))]
        }
    }

    /// From `o` to `f` the IR gained an FP load of `memop` into `rd`.
    pub open spec fn fp_load_effect(self, o: Context, f: Context, a: ArgsI, memop: MemOp, single: bool) -> bool {
        let k = 10 + Self::addr_len(a.imm);
        &&& builds(o, f, self.fp_load_ops(o, f, a, memop, single))
        &&& self.fp_check_ok(o, f, 0)
        &&& Self::fs_dirty_ok(o, f, 6)
        &&& a.imm != 0 ==> fresh_temp(o, f, out_temp(o, f, 10), Type::I64) && has_cst(f, Type::I64, a.imm as u64)
        &&& fresh_temp(o, f, out_temp(o, f, k), Type::I64)
        &&& single ==> fresh2(o, f, out_temp(o, f, k), out_temp(o, f, k + 1), Type::I64) && has_cst(
            f,
            Type::I64,
            0xffff_ffff_0000_0000u64,
        )
        &&& self.src_ok(f, a.rs1)
        &&& f.labels_view().len() == o.labels_view().len() + 1
    }

    /// FP load: `frd = mem[rs1 + imm]`.
    #[verifier::spinoff_prover]
    fn gen_fp_load(&self, ir: &mut Context, a: &ArgsI, memop: MemOp, single: bool) -> (ok: bool)
        requires
            room(*old(ir), 64),
            a.valid(),
        ensures
            ok,
            self.fp_load_effect(*old(ir), *final(ir), *a, memop, single),
    {
        let g = Ghost(*ir);
        let ghost o = *ir;
        proof {
            lemma_begin(*ir);
        }
        self.gen_fp_check(ir, g);
        let ghost m1 = *ir;
        self.gen_set_fs_dirty(ir, g);
        let ghost m2 = *ir;
        let addr = self.gen_addr(ir, g, a.rs1, a.imm);
        let ghost m3 = *ir;
        let val = temp(ir, g, Type::I64);
        emit_qemu_ld(ir, g, Type::I64, val, addr, memop.bits() as u32);
        let ghost m4 = *ir;
        if single {
            let mask = constant(ir, g, Type::I64, 0xffff_ffff_0000_0000u64);
            let boxed = temp(ir, g, Type::I64);
            emit_binop(ir, g, BinOp::Or, Type::I64, boxed, val, mask);
            self.fpr_store(ir, g, a.rd, boxed);
        } else {
            self.fpr_store(ir, g, a.rd, val);
        }
        proof {
            lemma_out_shift(o, m1, *ir, 6);
            lemma_out_shift(o, m2, *ir, 10);
        }
        assert(forall|j: int| 0 <= j < 6 ==> #[trigger] out_temp(o, *ir, j) == out_temp(o, m1, j));
        assert(forall|j: int| 0 <= j < 4 ==> #[trigger] out_temp(m1, *ir, j) == out_temp(m1, m2, j));
        assert(a.imm != 0 ==> out_temp(m2, *ir, 0) == out_temp(m2, m3, 0));
        assert(out_temp(o, *ir, 10 + Self::addr_len(a.imm)) == val);
        assert(emitted(o, *ir) =~= self.fp_load_ops(o, *ir, *a, memop, single));
        true
    }
}

impl RiscvDisasContext {
    /// The ops of an FP store of `memop` from `rs2`, taking the low word of
    /// a single.
    pub open spec fn fp_store_ops(self, o: Context, f: Context, a: ArgsS, memop: MemOp, single: bool) -> Seq<OpShape> {
        let k = 6 + Self::addr_len(a.imm);
        let v = out_temp(o, f, k);
        let lo32 = out_temp(o, f, k + 1);
        let lo64 = out_temp(o, f, k + 2);
        let addr = self.addr_of(f, a.rs1, a.imm, out_temp(o, f, 6));
        self.fp_check_ops(o, f, 0, o.labels_view().len() as u32) + self.addr_ops(f, a.rs1, a.imm, out_temp(o, f, 6))
            + seq![self.ld_op(v, Self::fpr_off(a.rs2))] + if single {
            seq![
                (Opcode::ExtrlI64I32, Type::I32, seq![lo32, v]),
                (Opcode::ExtI32I64, Type::I64, seq![lo64, lo32]),
                (Opcode::QemuSt, Type::I64, seq![lo64, addr, memarg(memop)]),
            ]
        } else {
            seq![(Opcode::QemuSt, Type::I64, seq![v, addr, memarg(memop)])]
        }
    }

    /// From `o` to `f` the IR gained an FP store of `memop` from `rs2`.
    pub open spec fn fp_store_effect(self, o: Context, f: Context, a: ArgsS, memop: MemOp, single: bool) -> bool {
        let k = 6 + Self::addr_len(a.imm);
        &&& builds(o, f, self.fp_store_ops(o, f, a, memop, single))
        &&& self.fp_check_ok(o, f, 0)
        &&& a.imm != 0 ==> fresh_temp(o, f, out_temp(o, f, 6), Type::I64) && has_cst(f, Type::I64, a.imm as u64)
        &&& fresh_temp(o, f, out_temp(o, f, k), Type::I64)
        &&& single ==> fresh_temp(o, f, out_temp(o, f, k + 1), Type::I32) && fresh_temp(o, f, out_temp(o, f, k + 2), Type::I64)
            && out_temp(o, f, k).0 < out_temp(o, f, k + 1).0 && out_temp(o, f, k + 1).0 < out_temp(o, f, k + 2).0
        &&& self.src_ok(f, a.rs1)
        &&& f.labels_view().len() == o.labels_view().len() + 1
    }

    /// FP store: `mem[rs1 + imm] = frs2`.
    #[verifier::spinoff_prover]
    fn gen_fp_store(&self, ir: &mut Context, a: &ArgsS, memop: MemOp, single: bool) -> (ok: bool)
        requires
            room(*old(ir), 64),
            a.valid(),
        ensures
            ok,
            self.fp_store_effect(*old(ir), *final(ir), *a, memop, single),
    {
        let g = Ghost(*ir);
        let ghost o = *ir;
        proof {
            lemma_begin(*ir);
        }
        self.gen_fp_check(ir, g);
        let ghost m1 = *ir;
        let addr = self.gen_addr(ir, g, a.rs1, a.imm);
        let ghost m2 = *ir;
        let val = self.fpr_load(ir, g, a.rs2);
        let ghost m3 = *ir;
        let store_val = if single {
            let lo32 = temp(ir, g, Type::I32);
            emit_extrl_i64_i32(ir, g, lo32, val);
            let lo64 = temp(ir, g, Type::I64);
            emit_ext_i32_i64(ir, g, lo64, lo32);
            lo64
        } else {
            val
        };
        let ghost m4 = *ir;
        emit_qemu_st(ir, g, Type::I64, store_val, addr, memop.bits() as u32);
        proof {
            lemma_adds_len(o, o, m1, self.fp_check_ops(o, m1, 0, o.labels_view().len() as u32));
            lemma_adds_len(o, m1, m2, self.addr_ops(m2, a.rs1, a.imm, out_temp(m1, m2, 0)));
            lemma_out_shift(o, m1, *ir, 6);
            lemma_out_shift(o, m2, *ir, 6 + Self::addr_len(a.imm));
        }
        assert(forall|j: int| 0 <= j < 6 ==> #[trigger] out_temp(o, *ir, j) == out_temp(o, m1, j));
        assert(a.imm != 0 ==> out_temp(m1, *ir, 0) == out_temp(m1, m2, 0));
        assert(out_temp(m2, *ir, 0) == out_temp(m2, m3, 0));
        assert(out_temp(o, *ir, 6 + Self::addr_len(a.imm)) == val);
        assert(single ==> out_temp(o, *ir, 7 + Self::addr_len(a.imm)) == out_temp(o, m4, 7 + Self::addr_len(a.imm)));
        assert(single ==> out_temp(o, *ir, 8 + Self::addr_len(a.imm)) == store_val);
        assert(emitted(o, *ir) =~= self.fp_store_ops(o, *ir, *a, memop, single));
        true
    }

    /// `flw frd, imm(rs1)`.
    pub fn trans_flw(&mut self, ir: &mut Context, a: &ArgsI) -> (ok: bool)
        requires
            room(*old(ir), 64),
            a.valid(),
        ensures
            ok,
            *final(self) == *old(self),
            old(self).fp_load_effect(*old(ir), *final(ir), *a, MemOp(2), true),
    {
        self.gen_fp_load(ir, a, MemOp::ul(), true)
    }

    /// `fld frd, imm(rs1)`.
    pub fn trans_fld(&mut self, ir: &mut Context, a: &ArgsI) -> (ok: bool)
        requires
            room(*old(ir), 64),
            a.valid(),
        ensures
            ok,
            *final(self) == *old(self),
            old(self).fp_load_effect(*old(ir), *final(ir), *a, MemOp(3), false),
    {
        self.gen_fp_load(ir, a, MemOp::uq(), false)
    }

    /// `fsw frs2, imm(rs1)`.
    pub fn trans_fsw(&mut self, ir: &mut Context, a: &ArgsS) -> (ok: bool)
        requires
            room(*old(ir), 64),
            a.valid(),
        ensures
            ok,
            *final(self) == *old(self),
            old(self).fp_store_effect(*old(ir), *final(ir), *a, MemOp(2), true),
    {
        self.gen_fp_store(ir, a, MemOp::ul(), true)
    }

    /// `fsd frs2, imm(rs1)`.
    pub fn trans_fsd(&mut self, ir: &mut Context, a: &ArgsS) -> (ok: bool)
        requires
            room(*old(ir), 64),
            a.valid(),
        ensures
            ok,
            *final(self) == *old(self),
            old(self).fp_store_effect(*old(ir), *final(ir), *a, MemOp(3), false),
    {
        self.gen_fp_store(ir, a, MemOp::uq(), false)
    }

    /// `c.flw`: the compressed `flw`.
    pub fn trans_c_flw(&mut self, ir: &mut Context, a: &ArgsI) -> (ok: bool)
        requires
            room(*old(ir), 64),
            a.valid(),
        ensures
            ok,
            *final(self) == *old(self),
            old(self).fp_load_effect(*old(ir), *final(ir), *a, MemOp(2), true),
    {
        self.trans_flw(ir, a)
    }

    /// `c.fld`: the compressed `fld`.
    pub fn trans_c_fld(&mut self, ir: &mut Context, a: &ArgsI) -> (ok: bool)
        requires
            room(*old(ir), 64),
            a.valid(),
        ensures
            ok,
            *final(self) == *old(self),
            old(self).fp_load_effect(*old(ir), *final(ir), *a, MemOp(3), false),
    {
        self.trans_fld(ir, a)
    }

    /// `c.fsw`: the compressed `fsw`.
    pub fn trans_c_fsw(&mut self, ir: &mut Context, a: &ArgsS) -> (ok: bool)
        requires
            room(*old(ir), 64),
            a.valid(),
        ensures
            ok,
            *final(self) == *old(self),
            old(self).fp_store_effect(*old(ir), *final(ir), *a, MemOp(2), true),
    {
        self.trans_fsw(ir, a)
    }

    /// `c.fsd`: the compressed `fsd`.
    pub fn trans_c_fsd(&mut self, ir: &mut Context, a: &ArgsS) -> (ok: bool)
        requires
            room(*old(ir), 64),
            a.valid(),
        ensures
            ok,
            *final(self) == *old(self),
            old(self).fp_store_effect(*old(ir), *final(ir), *a, MemOp(3), false),
    {
        self.trans_fsd(ir, a)
    }

    /// The illegal compressed instruction: not translated.
    pub fn trans_illegal(&mut self, ir: &mut Context, a: &ArgsEmpty) -> (ok: bool)
        ensures
            !ok,
            *final(self) == *old(self),
            *final(ir) == *old(ir),
    {
        false
    }

    /// A compressed encoding reserved on RV64: not translated.
    pub fn trans_c64_illegal(&mut self, ir: &mut Context, a: &ArgsEmpty) -> (ok: bool)
        ensures
            !ok,
            *final(self) == *old(self),
            *final(ir) == *old(ir),
    {
        false
    }

    /// `fmv.x.d rd, frs1`: move the bits of an FP register to `rd`.
    pub fn trans_fmv_x_d(&mut self, ir: &mut Context, a: &ArgsR2) -> (ok: bool)
        requires
            room(*old(ir), 64),
            a.valid(),
        ensures
            ok,
            *final(self) == *old(self),
            builds(
                *old(ir),
                *final(ir),
                old(self).fp_check_ops(*old(ir), *final(ir), 0, old(ir).labels_view().len() as u32) + seq![
                    old(self).ld_op(out_temp(*old(ir), *final(ir), 6), Self::fpr_off(a.rs1)),
                ] + old(self).set_gpr_ops(a.rd, out_temp(*old(ir), *final(ir), 6)),
            ),
            old(self).fp_check_ok(*old(ir), *final(ir), 0),
            fresh_temp(*old(ir), *final(ir), out_temp(*old(ir), *final(ir), 6), Type::I64),
            final(ir).labels_view().len() == old(ir).labels_view().len() + 1,
    {
        let g = Ghost(*ir);
        let ghost o = *ir;
        proof {
            lemma_begin(*ir);
        }
        self.gen_fp_check(ir, g);
        let ghost m1 = *ir;
        let val = self.fpr_load(ir, g, a.rs1);
        self.gen_set_gpr(ir, g, a.rd, val);
        proof {
            lemma_out_shift(o, m1, *ir, 6);
        }
        assert(forall|j: int| 0 <= j < 6 ==> #[trigger] out_temp(o, *ir, j) == out_temp(o, m1, j));
        assert(emitted(o, *ir) =~= self.fp_check_ops(o, *ir, 0, o.labels_view().len() as u32) + seq![
            self.ld_op(val, Self::fpr_off(a.rs1)),
        ] + self.set_gpr_ops(a.rd, val));
        true
    }

    /// `fmv.d.x frd, rs1`: move the bits of `rs1` to an FP register.
    pub fn trans_fmv_d_x(&mut self, ir: &mut Context, a: &ArgsR2) -> (ok: bool)
        requires
            room(*old(ir), 64),
            a.valid(),
        ensures
            ok,
            *final(self) == *old(self),
            builds(
                *old(ir),
                *final(ir),
                old(self).fp_check_ops(*old(ir), *final(ir), 0, old(ir).labels_view().len() as u32)
                    + old(self).fs_dirty_ops(*old(ir), *final(ir), 6) + seq![
                    old(self).st_op(old(self).src(*final(ir), a.rs1), Self::fpr_off(a.rd)),
                ],
            ),
            old(self).fp_check_ok(*old(ir), *final(ir), 0),
            Self::fs_dirty_ok(*old(ir), *final(ir), 6),
            old(self).src_ok(*final(ir), a.rs1),
            final(ir).labels_view().len() == old(ir).labels_view().len() + 1,
    {
        let g = Ghost(*ir);
        let ghost o = *ir;
        proof {
            lemma_begin(*ir);
        }
        self.gen_fp_check(ir, g);
        let ghost m1 = *ir;
        self.gen_set_fs_dirty(ir, g);
        let ghost m2 = *ir;
        let src = self.gpr_or_zero(ir, g, a.rs1);
        self.fpr_store(ir, g, a.rd, src);
        proof {
            lemma_out_shift(o, m1, *ir, 6);
        }
        assert(forall|j: int| 0 <= j < 6 ==> #[trigger] out_temp(o, *ir, j) == out_temp(o, m1, j));
        assert(forall|j: int| 0 <= j < 4 ==> #[trigger] out_temp(m1, *ir, j) == out_temp(m1, m2, j));
        assert(emitted(o, *ir) =~= self.fp_check_ops(o, *ir, 0, o.labels_view().len() as u32) + self.fs_dirty_ops(o, *ir, 6)
            + seq![self.st_op(src, Self::fpr_off(a.rd))]);
        true
    }

    /// `fmv.x.w rd, frs1`: sign-extend the low word of an FP register into `rd`.
    pub fn trans_fmv_x_w(&mut self, ir: &mut Context, a: &ArgsR2) -> (ok: bool)
        requires
            room(*old(ir), 64),
            a.valid(),
        ensures
            ok,
            *final(self) == *old(self),
            builds(
                *old(ir),
                *final(ir),
                old(self).fp_check_ops(*old(ir), *final(ir), 0, old(ir).labels_view().len() as u32) + seq![
                    old(self).ld_op(out_temp(*old(ir), *final(ir), 6), Self::fpr_off(a.rs1)),
                    (Opcode::ExtrlI64I32, Type::I32, seq![out_temp(*old(ir), *final(ir), 7), out_temp(*old(ir), *final(ir), 6)]),
                ] + old(self).set_gpr_sx32_ops(a.rd, out_temp(*old(ir), *final(ir), 7)),
            ),
            old(self).fp_check_ok(*old(ir), *final(ir), 0),
            fresh_temp(*old(ir), *final(ir), out_temp(*old(ir), *final(ir), 6), Type::I64),
            fresh_temp(*old(ir), *final(ir), out_temp(*old(ir), *final(ir), 7), Type::I32),
            out_temp(*old(ir), *final(ir), 6).0 < out_temp(*old(ir), *final(ir), 7).0,
            final(ir).labels_view().len() == old(ir).labels_view().len() + 1,
    {
        let g = Ghost(*ir);
        let ghost o = *ir;
        proof {
            lemma_begin(*ir);
        }
        self.gen_fp_check(ir, g);
        let ghost m1 = *ir;
        let val = self.fpr_load(ir, g, a.rs1);
        let lo32 = temp(ir, g, Type::I32);
        emit_extrl_i64_i32(ir, g, lo32, val);
        self.gen_set_gpr_sx32(ir, g, a.rd, lo32);
        proof {
            lemma_out_shift(o, m1, *ir, 6);
        }
        assert(forall|j: int| 0 <= j < 6 ==> #[trigger] out_temp(o, *ir, j) == out_temp(o, m1, j));
        assert(emitted(o, *ir) =~= self.fp_check_ops(o, *ir, 0, o.labels_view().len() as u32) + seq![
            self.ld_op(val, Self::fpr_off(a.rs1)),
            (Opcode::ExtrlI64I32, Type::I32, seq![lo32, val]),
        ] + self.set_gpr_sx32_ops(a.rd, lo32));
        true
    }

    /// `fmv.w.x frd, rs1`: NaN-box the low word of `rs1` into an FP register.
    #[verifier::spinoff_prover]
    pub fn trans_fmv_w_x(&mut self, ir: &mut Context, a: &ArgsR2) -> (ok: bool)
        requires
            room(*old(ir), 64),
            a.valid(),
        ensures
            ok,
            *final(self) == *old(self),
            builds(
                *old(ir),
                *final(ir),
                old(self).fp_check_ops(*old(ir), *final(ir), 0, old(ir).labels_view().len() as u32)
                    + old(self).fs_dirty_ops(*old(ir), *final(ir), 6) + seq![
                    (Opcode::ExtrlI64I32, Type::I32, seq![out_temp(*old(ir), *final(ir), 10), old(self).src(*final(ir), a.rs1)]),
                    (Opcode::ExtUI32I64, Type::I64, seq![out_temp(*old(ir), *final(ir), 11), out_temp(*old(ir), *final(ir), 10)]),
                    (Opcode::Or, Type::I64, seq![
                        out_temp(*old(ir), *final(ir), 12),
                        out_temp(*old(ir), *final(ir), 11),
                        cst(*final(ir), Type::I64, 0xffff_ffff_0000_0000u64),
                    ]),
                    old(self).st_op(out_temp(*old(ir), *final(ir), 12), Self::fpr_off(a.rd)),
                ],
            ),
            old(self).fp_check_ok(*old(ir), *final(ir), 0),
            Self::fs_dirty_ok(*old(ir), *final(ir), 6),
            fresh_temp(*old(ir), *final(ir), out_temp(*old(ir), *final(ir), 10), Type::I32),
            fresh2(*old(ir), *final(ir), out_temp(*old(ir), *final(ir), 11), out_temp(*old(ir), *final(ir), 12), Type::I64),
            out_temp(*old(ir), *final(ir), 10).0 < out_temp(*old(ir), *final(ir), 11).0,
            old(self).src_ok(*final(ir), a.rs1),
            has_cst(*final(ir), Type::I64, 0xffff_ffff_0000_0000u64),
            final(ir).labels_view().len() == old(ir).labels_view().len() + 1,
    {
        let g = Ghost(*ir);
        let ghost o = *ir;
        proof {
            lemma_begin(*ir);
        }
        self.gen_fp_check(ir, g);
        let ghost m1 = *ir;
        self.gen_set_fs_dirty(ir, g);
        let ghost m2 = *ir;
        let src = self.gpr_or_zero(ir, g, a.rs1);
        let lo32 = temp(ir, g, Type::I32);
        emit_extrl_i64_i32(ir, g, lo32, src);
        let lo64 = temp(ir, g, Type::I64);
        emit_ext_u32_i64(ir, g, lo64, lo32);
        let mask = constant(ir, g, Type::I64, 0xffff_ffff_0000_0000u64);
        let boxed = temp(ir, g, Type::I64);
        emit_binop(ir, g, BinOp::Or, Type::I64, boxed, lo64, mask);
        self.fpr_store(ir, g, a.rd, boxed);
        proof {
            lemma_out_shift(o, m1, *ir, 6);
        }
        assert(forall|j: int| 0 <= j < 6 ==> #[trigger] out_temp(o, *ir, j) == out_temp(o, m1, j));
        assert(forall|j: int| 0 <= j < 4 ==> #[trigger] out_temp(m1, *ir, j) == out_temp(m1, m2, j));
        assert(out_temp(o, *ir, 10) == lo32);
        assert(out_temp(o, *ir, 11) == lo64);
        assert(out_temp(o, *ir, 12) == boxed);
        assert(emitted(o, *ir) =~= self.fp_check_ops(o, *ir, 0, o.labels_view().len() as u32) + self.fs_dirty_ops(o, *ir, 6)
            + seq![
            (Opcode::ExtrlI64I32, Type::I32, seq![lo32, src]),
            (Opcode::ExtUI32I64, Type::I64, seq![lo64, lo32]),
            (Opcode::Or, Type::I64, seq![boxed, lo64, cst(*ir, Type::I64, 0xffff_ffff_0000_0000u64)]),
            self.st_op(boxed, Self::fpr_off(a.rd)),
        ]);
        true
    }
}

/// The shape of a floating-point instruction that calls a helper: the
/// helper, its register operands (FP registers, or one integer register),
/// the rounding mode it passes, where the result goes, and whether it
/// marks the FP state dirty.
#[derive(Debug, Clone, Copy)]
pub struct FpCall {
    pub helper: u64,
    pub n: usize,
    pub rs: [i64; 3],
    pub from_gpr: bool,
    pub rm: Option<i64>,
    pub rd: i64,
    pub to_gpr: bool,
    pub dirty: bool,
}

impl FpCall {
    pub open spec fn valid(self) -> bool {
        &&& 1 <= self.n <= 3
        &&& forall|j: int| 0 <= j < self.n ==> is_reg(#[trigger] self.rs@[j])
        &&& is_reg(self.rd)
        &&& self.from_gpr ==> self.n == 1
    }

    /// Index of the first operand load.
    pub open spec fn load_at(self) -> int {
        if self.dirty {
            10
        } else {
            6
        }
    }

    /// Index of the call.
    pub open spec fn call_at(self) -> int {
        self.load_at() + if self.from_gpr {
            0
        } else {
            self.n as int
        }
    }
}

impl RiscvDisasContext {
    /// The temp that holds operand `j` of `c`.
    pub open spec fn fp_operand(self, o: Context, f: Context, c: FpCall, j: int) -> TempIdx {
        if c.from_gpr {
            self.src(f, c.rs@[j])
        } else {
            out_temp(o, f, c.load_at() + j)
        }
    }

    /// The arguments the helper gets: env, the operands, the rounding mode.
    pub open spec fn fp_call_args(self, o: Context, f: Context, c: FpCall) -> Seq<TempIdx> {
        seq![self.env] + Seq::new(c.n as nat, |j: int| self.fp_operand(o, f, c, j)) + match c.rm {
            Some(m) => seq![cst(f, Type::I64, m as u64)],
            None => seq![],
        }
    }

    /// The ops of the FP instruction `c`: the FP-unit check, the dirty
    /// mark, the operand loads, the call, the write of the result.
    pub open spec fn fp_call_ops(self, o: Context, f: Context, c: FpCall) -> Seq<OpShape> {
        let d = out_temp(o, f, c.call_at());
        self.fp_check_ops(o, f, 0, o.labels_view().len() as u32) + (if c.dirty {
            self.fs_dirty_ops(o, f, 6)
        } else {
            seq![]
        }) + (if c.from_gpr {
            seq![]
        } else {
            Seq::new(c.n as nat, |j: int| self.ld_op(out_temp(o, f, c.load_at() + j), Self::fpr_off(c.rs@[j])))
        }) + seq![(Opcode::Call, Type::I64, Context::call_args(d, c.helper, self.fp_call_args(o, f, c), cst(f, Type::I64, 0)))]
            + if c.to_gpr {
            self.set_gpr_ops(c.rd, d)
        } else {
            seq![self.st_op(d, Self::fpr_off(c.rd))]
        }
    }

    /// From `o` to `f` the IR gained the FP instruction `c`.
    pub open spec fn fp_call_effect(self, o: Context, f: Context, c: FpCall) -> bool {
        &&& builds(o, f, self.fp_call_ops(o, f, c))
        &&& self.fp_check_ok(o, f, 0)
        &&& c.dirty ==> Self::fs_dirty_ok(o, f, 6)
        &&& !c.from_gpr ==> forall|j: int| 0 <= j < c.n ==> #[trigger] fresh_temp(o, f, out_temp(o, f, c.load_at() + j), Type::I64)
        &&& c.from_gpr ==> self.src_ok(f, c.rs@[0])
        &&& fresh_temp(o, f, out_temp(o, f, c.call_at()), Type::I64)
        &&& c.rm is Some ==> has_cst(f, Type::I64, c.rm->0 as u64)
        &&& has_cst(f, Type::I64, 0)
        &&& f.labels_view().len() == o.labels_view().len() + 1
    }

    /// Load operand `idx` of an FP instruction: an FP register, or an
    /// integer register for the conversions from integers.
    fn fp_operand_load(&self, ir: &mut Context, g: Ghost<Context>, idx: i64, from_gpr: bool) -> (t: TempIdx)
        requires
            grown(g@, *old(ir)),
            room(*old(ir), 4),
            is_reg(idx),
        ensures
            adds(g@, *old(ir), *final(ir), if from_gpr { seq![] } else { seq![self.ld_op(t, Self::fpr_off(idx))] }),
            from_gpr ==> t == self.src(*final(ir), idx) && self.src_ok(*final(ir), idx),
            !from_gpr ==> t == out_temp(*old(ir), *final(ir), 0) && fresh_temp(*old(ir), *final(ir), t, Type::I64),
            spent(*old(ir), *final(ir), 2),
            final(ir).labels_view().len() == old(ir).labels_view().len(),
    {
        let ghost o = *ir;
        let t = if from_gpr {
            self.gpr_or_zero(ir, g, idx)
        } else {
            self.fpr_load(ir, g, idx)
        };
        assert(emitted(g@, *ir) =~= emitted(g@, o) + if from_gpr { seq![] } else { seq![self.ld_op(t, Self::fpr_off(idx))] });
        t
    }

    /// Call the helper at `helper` with `args` into a new temp.
    fn gen_helper_call(&self, ir: &mut Context, g: Ghost<Context>, helper: u64, args: &[TempIdx]) -> (dst: TempIdx)
        requires
            grown(g@, *old(ir)),
            room(*old(ir), 4),
        ensures
            adds(
                g@,
                *old(ir),
                *final(ir),
                seq![(Opcode::Call, Type::I64, Context::call_args(dst, helper, args@, cst(*final(ir), Type::I64, 0)))],
            ),
            dst == out_temp(*old(ir), *final(ir), 0),
            fresh_temp(*old(ir), *final(ir), dst, Type::I64),
            has_cst(*final(ir), Type::I64, 0),
            spent(*old(ir), *final(ir), 2),
            final(ir).labels_view().len() == old(ir).labels_view().len(),
    {
        let ghost o = *ir;
        let dst = temp(ir, g, Type::I64);
        emit_call(ir, g, dst, helper, args);
        assert(emitted(g@, *ir) =~= emitted(g@, o) + seq![
            (Opcode::Call, Type::I64, Context::call_args(dst, helper, args@, cst(*ir, Type::I64, 0))),
        ]);
        dst
    }

    /// The shared body of the FP instructions that call a helper.
    #[verifier::rlimit(40)]
    #[verifier::spinoff_prover]
    fn gen_fp_call(&self, ir: &mut Context, c: FpCall) -> (ok: bool)
        requires
            room(*old(ir), 64),
            c.valid(),
        ensures
            ok,
            self.fp_call_effect(*old(ir), *final(ir), c),
    {
        let g = Ghost(*ir);
        let ghost o = *ir;
        proof {
            lemma_begin(*ir);
        }
        self.gen_fp_check(ir, g);
        let ghost m1 = *ir;
        proof {
            lemma_adds_len(g@, o, m1, self.fp_check_ops(o, m1, 0, o.labels_view().len() as u32));
        }
        if c.dirty {
            self.gen_set_fs_dirty(ir, g);
            proof {
                lemma_adds_len(g@, m1, *ir, self.fs_dirty_ops(m1, *ir, 0));
            }
        }
        let ghost m2 = *ir;
        assert(m2.ops_view().len() == o.ops_view().len() + c.load_at());
        let mut args: Vec<TempIdx> = Vec::new();
        args.push(self.env);
        let t0 = self.fp_operand_load(ir, g, c.rs[0], c.from_gpr);
        proof {
            lemma_adds_len(g@, m2, *ir, if c.from_gpr { seq![] } else { seq![self.ld_op(t0, Self::fpr_off(c.rs@[0]))] });
        }
        args.push(t0);
        let ghost m3 = *ir;
        if c.n >= 2 {
            let t1 = self.fp_operand_load(ir, g, c.rs[1], c.from_gpr);
            proof {
                lemma_adds_len(g@, m3, *ir, if c.from_gpr { seq![] } else { seq![self.ld_op(t1, Self::fpr_off(c.rs@[1]))] });
            }
            args.push(t1);
        }
        let ghost m4 = *ir;
        if c.n >= 3 {
            let t2 = self.fp_operand_load(ir, g, c.rs[2], c.from_gpr);
            proof {
                lemma_adds_len(g@, m4, *ir, if c.from_gpr { seq![] } else { seq![self.ld_op(t2, Self::fpr_off(c.rs@[2]))] });
            }
            args.push(t2);
        }
        let ghost m5 = *ir;
        match c.rm {
            Some(m) => {
                let r = constant(ir, g, Type::I64, m as u64);
                args.push(r);
            },
            None => {},
        }
        let ghost m6 = *ir;
        assert(m6.ops_view().len() == o.ops_view().len() + c.call_at());
        let dst = self.gen_helper_call(ir, g, c.helper, args.as_slice());
        let ghost m8 = *ir;
        if c.to_gpr {
            self.gen_set_gpr(ir, g, c.rd, dst);
        } else {
            self.fpr_store(ir, g, c.rd, dst);
        }
        proof {
            lemma_out_shift(o, m1, *ir, 6);
            lemma_out_shift(o, m2, *ir, c.load_at());
            lemma_out_shift(o, m6, *ir, c.call_at());
        }
        assert(forall|j: int| 0 <= j < 6 ==> #[trigger] out_temp(o, *ir, j) == out_temp(o, m1, j));
        assert(c.dirty ==> forall|j: int| 0 <= j < 4 ==> #[trigger] out_temp(m1, *ir, j) == out_temp(m1, m2, j));
        assert(out_temp(o, *ir, c.call_at()) == dst);
        assert(!c.from_gpr ==> out_temp(o, *ir, c.load_at()) == t0);
        assert(args@ =~= self.fp_call_args(o, *ir, c));
        assert(emitted(o, *ir) =~= self.fp_call_ops(o, *ir, c));
        true
    }
}

impl RiscvDisasContext {
    /// `fmadd.s`, through its helper.
    pub fn trans_fmadd_s(&mut self, ir: &mut Context, a: &ArgsR4Rm) -> (ok: bool)
        requires
            room(*old(ir), 64),
            a.valid(),
        ensures
            ok,
            *final(self) == *old(self),
            old(self).fp_call_effect(*old(ir), *final(ir), FpCall { helper: old(self).fp.fmadd_s, n: 3, rs: [a.rs1, a.rs2, a.rs3], from_gpr: false, rm: Some(a.rm), rd: a.rd, to_gpr: false, dirty: true }),
    {
        let c = FpCall { helper: self.fp.fmadd_s, n: 3, rs: [a.rs1, a.rs2, a.rs3], from_gpr: false, rm: Some(a.rm), rd: a.rd, to_gpr: false, dirty: true };
        self.gen_fp_call(ir, c)
    }

    /// `fmsub.s`, through its helper.
    pub fn trans_fmsub_s(&mut self, ir: &mut Context, a: &ArgsR4Rm) -> (ok: bool)
        requires
            room(*old(ir), 64),
            a.valid(),
        ensures
            ok,
            *final(self) == *old(self),
            old(self).fp_call_effect(*old(ir), *final(ir), FpCall { helper: old(self).fp.fmsub_s, n: 3, rs: [a.rs1, a.rs2, a.rs3], from_gpr: false, rm: Some(a.rm), rd: a.rd, to_gpr: false, dirty: true }),
    {
        let c = FpCall { helper: self.fp.fmsub_s, n: 3, rs: [a.rs1, a.rs2, a.rs3], from_gpr: false, rm: Some(a.rm), rd: a.rd, to_gpr: false, dirty: true };
        self.gen_fp_call(ir, c)
    }

    /// `fnmsub.s`, through its helper.
    pub fn trans_fnmsub_s(&mut self, ir: &mut Context, a: &ArgsR4Rm) -> (ok: bool)
        requires
            room(*old(ir), 64),
            a.valid(),
        ensures
            ok,
            *final(self) == *old(self),
            old(self).fp_call_effect(*old(ir), *final(ir), FpCall { helper: old(self).fp.fnmsub_s, n: 3, rs: [a.rs1, a.rs2, a.rs3], from_gpr: false, rm: Some(a.rm), rd: a.rd, to_gpr: false, dirty: true }),
    {
        let c = FpCall { helper: self.fp.fnmsub_s, n: 3, rs: [a.rs1, a.rs2, a.rs3], from_gpr: false, rm: Some(a.rm), rd: a.rd, to_gpr: false, dirty: true };
        self.gen_fp_call(ir, c)
    }

    /// `fnmadd.s`, through its helper.
    pub fn trans_fnmadd_s(&mut self, ir: &mut Context, a: &ArgsR4Rm) -> (ok: bool)
        requires
            room(*old(ir), 64),
            a.valid(),
        ensures
            ok,
            *final(self) == *old(self),
            old(self).fp_call_effect(*old(ir), *final(ir), FpCall { helper: old(self).fp.fnmadd_s, n: 3, rs: [a.rs1, a.rs2, a.rs3], from_gpr: false, rm: Some(a.rm), rd: a.rd, to_gpr: false, dirty: true }),
    {
        let c = FpCall { helper: self.fp.fnmadd_s, n: 3, rs: [a.rs1, a.rs2, a.rs3], from_gpr: false, rm: Some(a.rm), rd: a.rd, to_gpr: false, dirty: true };
        self.gen_fp_call(ir, c)
    }

    /// `fadd.s`, through its helper.
    pub fn trans_fadd_s(&mut self, ir: &mut Context, a: &ArgsRRm) -> (ok: bool)
        requires
            room(*old(ir), 64),
            a.valid(),
        ensures
            ok,
            *final(self) == *old(self),
            old(self).fp_call_effect(*old(ir), *final(ir), FpCall { helper: old(self).fp.fadd_s, n: 2, rs: [a.rs1, a.rs2, 0], from_gpr: false, rm: Some(a.rm), rd: a.rd, to_gpr: false, dirty: true }),
    {
        let c = FpCall { helper: self.fp.fadd_s, n: 2, rs: [a.rs1, a.rs2, 0], from_gpr: false, rm: Some(a.rm), rd: a.rd, to_gpr: false, dirty: true };
        self.gen_fp_call(ir, c)
    }

    /// `fsub.s`, through its helper.
    pub fn trans_fsub_s(&mut self, ir: &mut Context, a: &ArgsRRm) -> (ok: bool)
        requires
            room(*old(ir), 64),
            a.valid(),
        ensures
            ok,
            *final(self) == *old(self),
            old(self).fp_call_effect(*old(ir), *final(ir), FpCall { helper: old(self).fp.fsub_s, n: 2, rs: [a.rs1, a.rs2, 0], from_gpr: false, rm: Some(a.rm), rd: a.rd, to_gpr: false, dirty: true }),
    {
        let c = FpCall { helper: self.fp.fsub_s, n: 2, rs: [a.rs1, a.rs2, 0], from_gpr: false, rm: Some(a.rm), rd: a.rd, to_gpr: false, dirty: true };
        self.gen_fp_call(ir, c)
    }

    /// `fmul.s`, through its helper.
    pub fn trans_fmul_s(&mut self, ir: &mut Context, a: &ArgsRRm) -> (ok: bool)
        requires
            room(*old(ir), 64),
            a.valid(),
        ensures
            ok,
            *final(self) == *old(self),
            old(self).fp_call_effect(*old(ir), *final(ir), FpCall { helper: old(self).fp.fmul_s, n: 2, rs: [a.rs1, a.rs2, 0], from_gpr: false, rm: Some(a.rm), rd: a.rd, to_gpr: false, dirty: true }),
    {
        let c = FpCall { helper: self.fp.fmul_s, n: 2, rs: [a.rs1, a.rs2, 0], from_gpr: false, rm: Some(a.rm), rd: a.rd, to_gpr: false, dirty: true };
        self.gen_fp_call(ir, c)
    }

    /// `fdiv.s`, through its helper.
    pub fn trans_fdiv_s(&mut self, ir: &mut Context, a: &ArgsRRm) -> (ok: bool)
        requires
            room(*old(ir), 64),
            a.valid(),
        ensures
            ok,
            *final(self) == *old(self),
            old(self).fp_call_effect(*old(ir), *final(ir), FpCall { helper: old(self).fp.fdiv_s, n: 2, rs: [a.rs1, a.rs2, 0], from_gpr: false, rm: Some(a.rm), rd: a.rd, to_gpr: false, dirty: true }),
    {
        let c = FpCall { helper: self.fp.fdiv_s, n: 2, rs: [a.rs1, a.rs2, 0], from_gpr: false, rm: Some(a.rm), rd: a.rd, to_gpr: false, dirty: true };
        self.gen_fp_call(ir, c)
    }

    /// `fsqrt.s`, through its helper.
    pub fn trans_fsqrt_s(&mut self, ir: &mut Context, a: &ArgsR2Rm) -> (ok: bool)
        requires
            room(*old(ir), 64),
            a.valid(),
        ensures
            ok,
            *final(self) == *old(self),
            old(self).fp_call_effect(*old(ir), *final(ir), FpCall { helper: old(self).fp.fsqrt_s, n: 1, rs: [a.rs1, 0, 0], from_gpr: false, rm: Some(a.rm), rd: a.rd, to_gpr: false, dirty: true }),
    {
        let c = FpCall { helper: self.fp.fsqrt_s, n: 1, rs: [a.rs1, 0, 0], from_gpr: false, rm: Some(a.rm), rd: a.rd, to_gpr: false, dirty: true };
        self.gen_fp_call(ir, c)
    }

    /// `fsgnj.s`, through its helper.
    pub fn trans_fsgnj_s(&mut self, ir: &mut Context, a: &ArgsR) -> (ok: bool)
        requires
            room(*old(ir), 64),
            a.valid(),
        ensures
            ok,
            *final(self) == *old(self),
            old(self).fp_call_effect(*old(ir), *final(ir), FpCall { helper: old(self).fp.fsgnj_s, n: 2, rs: [a.rs1, a.rs2, 0], from_gpr: false, rm: None, rd: a.rd, to_gpr: false, dirty: true }),
    {
        let c = FpCall { helper: self.fp.fsgnj_s, n: 2, rs: [a.rs1, a.rs2, 0], from_gpr: false, rm: None, rd: a.rd, to_gpr: false, dirty: true };
        self.gen_fp_call(ir, c)
    }

    /// `fsgnjn.s`, through its helper.
    pub fn trans_fsgnjn_s(&mut self, ir: &mut Context, a: &ArgsR) -> (ok: bool)
        requires
            room(*old(ir), 64),
            a.valid(),
        ensures
            ok,
            *final(self) == *old(self),
            old(self).fp_call_effect(*old(ir), *final(ir), FpCall { helper: old(self).fp.fsgnjn_s, n: 2, rs: [a.rs1, a.rs2, 0], from_gpr: false, rm: None, rd: a.rd, to_gpr: false, dirty: true }),
    {
        let c = FpCall { helper: self.fp.fsgnjn_s, n: 2, rs: [a.rs1, a.rs2, 0], from_gpr: false, rm: None, rd: a.rd, to_gpr: false, dirty: true };
        self.gen_fp_call(ir, c)
    }

    /// `fsgnjx.s`, through its helper.
    pub fn trans_fsgnjx_s(&mut self, ir: &mut Context, a: &ArgsR) -> (ok: bool)
        requires
            room(*old(ir), 64),
            a.valid(),
        ensures
            ok,
            *final(self) == *old(self),
            old(self).fp_call_effect(*old(ir), *final(ir), FpCall { helper: old(self).fp.fsgnjx_s, n: 2, rs: [a.rs1, a.rs2, 0], from_gpr: false, rm: None, rd: a.rd, to_gpr: false, dirty: true }),
    {
        let c = FpCall { helper: self.fp.fsgnjx_s, n: 2, rs: [a.rs1, a.rs2, 0], from_gpr: false, rm: None, rd: a.rd, to_gpr: false, dirty: true };
        self.gen_fp_call(ir, c)
    }

    /// `fmin.s`, through its helper.
    pub fn trans_fmin_s(&mut self, ir: &mut Context, a: &ArgsR) -> (ok: bool)
        requires
            room(*old(ir), 64),
            a.valid(),
        ensures
            ok,
            *final(self) == *old(self),
            old(self).fp_call_effect(*old(ir), *final(ir), FpCall { helper: old(self).fp.fmin_s, n: 2, rs: [a.rs1, a.rs2, 0], from_gpr: false, rm: None, rd: a.rd, to_gpr: false, dirty: true }),
    {
        let c = FpCall { helper: self.fp.fmin_s, n: 2, rs: [a.rs1, a.rs2, 0], from_gpr: false, rm: None, rd: a.rd, to_gpr: false, dirty: true };
        self.gen_fp_call(ir, c)
    }

    /// `fmax.s`, through its helper.
    pub fn trans_fmax_s(&mut self, ir: &mut Context, a: &ArgsR) -> (ok: bool)
        requires
            room(*old(ir), 64),
            a.valid(),
        ensures
            ok,
            *final(self) == *old(self),
            old(self).fp_call_effect(*old(ir), *final(ir), FpCall { helper: old(self).fp.fmax_s, n: 2, rs: [a.rs1, a.rs2, 0], from_gpr: false, rm: None, rd: a.rd, to_gpr: false, dirty: true }),
    {
        let c = FpCall { helper: self.fp.fmax_s, n: 2, rs: [a.rs1, a.rs2, 0], from_gpr: false, rm: None, rd: a.rd, to_gpr: false, dirty: true };
        self.gen_fp_call(ir, c)
    }

    /// `feq.s`, through its helper.
    pub fn trans_feq_s(&mut self, ir: &mut Context, a: &ArgsR) -> (ok: bool)
        requires
            room(*old(ir), 64),
            a.valid(),
        ensures
            ok,
            *final(self) == *old(self),
            old(self).fp_call_effect(*old(ir), *final(ir), FpCall { helper: old(self).fp.feq_s, n: 2, rs: [a.rs1, a.rs2, 0], from_gpr: false, rm: None, rd: a.rd, to_gpr: true, dirty: false }),
    {
        let c = FpCall { helper: self.fp.feq_s, n: 2, rs: [a.rs1, a.rs2, 0], from_gpr: false, rm: None, rd: a.rd, to_gpr: true, dirty: false };
        self.gen_fp_call(ir, c)
    }

    /// `flt.s`, through its helper.
    pub fn trans_flt_s(&mut self, ir: &mut Context, a: &ArgsR) -> (ok: bool)
        requires
            room(*old(ir), 64),
            a.valid(),
        ensures
            ok,
            *final(self) == *old(self),
            old(self).fp_call_effect(*old(ir), *final(ir), FpCall { helper: old(self).fp.flt_s, n: 2, rs: [a.rs1, a.rs2, 0], from_gpr: false, rm: None, rd: a.rd, to_gpr: true, dirty: false }),
    {
        let c = FpCall { helper: self.fp.flt_s, n: 2, rs: [a.rs1, a.rs2, 0], from_gpr: false, rm: None, rd: a.rd, to_gpr: true, dirty: false };
        self.gen_fp_call(ir, c)
    }

    /// `fle.s`, through its helper.
    pub fn trans_fle_s(&mut self, ir: &mut Context, a: &ArgsR) -> (ok: bool)
        requires
            room(*old(ir), 64),
            a.valid(),
        ensures
            ok,
            *final(self) == *old(self),
            old(self).fp_call_effect(*old(ir), *final(ir), FpCall { helper: old(self).fp.fle_s, n: 2, rs: [a.rs1, a.rs2, 0], from_gpr: false, rm: None, rd: a.rd, to_gpr: true, dirty: false }),
    {
        let c = FpCall { helper: self.fp.fle_s, n: 2, rs: [a.rs1, a.rs2, 0], from_gpr: false, rm: None, rd: a.rd, to_gpr: true, dirty: false };
        self.gen_fp_call(ir, c)
    }

    /// `fclass.s`, through its helper.
    pub fn trans_fclass_s(&mut self, ir: &mut Context, a: &ArgsR2) -> (ok: bool)
        requires
            room(*old(ir), 64),
            a.valid(),
        ensures
            ok,
            *final(self) == *old(self),
            old(self).fp_call_effect(*old(ir), *final(ir), FpCall { helper: old(self).fp.fclass_s, n: 1, rs: [a.rs1, 0, 0], from_gpr: false, rm: None, rd: a.rd, to_gpr: true, dirty: false }),
    {
        let c = FpCall { helper: self.fp.fclass_s, n: 1, rs: [a.rs1, 0, 0], from_gpr: false, rm: None, rd: a.rd, to_gpr: true, dirty: false };
        self.gen_fp_call(ir, c)
    }

    /// `fcvt.w.s`, through its helper.
    pub fn trans_fcvt_w_s(&mut self, ir: &mut Context, a: &ArgsR2Rm) -> (ok: bool)
        requires
            room(*old(ir), 64),
            a.valid(),
        ensures
            ok,
            *final(self) == *old(self),
            old(self).fp_call_effect(*old(ir), *final(ir), FpCall { helper: old(self).fp.fcvt_w_s, n: 1, rs: [a.rs1, 0, 0], from_gpr: false, rm: Some(a.rm), rd: a.rd, to_gpr: true, dirty: false }),
    {
        let c = FpCall { helper: self.fp.fcvt_w_s, n: 1, rs: [a.rs1, 0, 0], from_gpr: false, rm: Some(a.rm), rd: a.rd, to_gpr: true, dirty: false };
        self.gen_fp_call(ir, c)
    }

    /// `fcvt.wu.s`, through its helper.
    pub fn trans_fcvt_wu_s(&mut self, ir: &mut Context, a: &ArgsR2Rm) -> (ok: bool)
        requires
            room(*old(ir), 64),
            a.valid(),
        ensures
            ok,
            *final(self) == *old(self),
            old(self).fp_call_effect(*old(ir), *final(ir), FpCall { helper: old(self).fp.fcvt_wu_s, n: 1, rs: [a.rs1, 0, 0], from_gpr: false, rm: Some(a.rm), rd: a.rd, to_gpr: true, dirty: false }),
    {
        let c = FpCall { helper: self.fp.fcvt_wu_s, n: 1, rs: [a.rs1, 0, 0], from_gpr: false, rm: Some(a.rm), rd: a.rd, to_gpr: true, dirty: false };
        self.gen_fp_call(ir, c)
    }

    /// `fcvt.s.w`, through its helper.
    pub fn trans_fcvt_s_w(&mut self, ir: &mut Context, a: &ArgsR2Rm) -> (ok: bool)
        requires
            room(*old(ir), 64),
            a.valid(),
        ensures
            ok,
            *final(self) == *old(self),
            old(self).fp_call_effect(*old(ir), *final(ir), FpCall { helper: old(self).fp.fcvt_s_w, n: 1, rs: [a.rs1, 0, 0], from_gpr: true, rm: Some(a.rm), rd: a.rd, to_gpr: false, dirty: true }),
    {
        let c = FpCall { helper: self.fp.fcvt_s_w, n: 1, rs: [a.rs1, 0, 0], from_gpr: true, rm: Some(a.rm), rd: a.rd, to_gpr: false, dirty: true };
        self.gen_fp_call(ir, c)
    }

    /// `fcvt.s.wu`, through its helper.
    pub fn trans_fcvt_s_wu(&mut self, ir: &mut Context, a: &ArgsR2Rm) -> (ok: bool)
        requires
            room(*old(ir), 64),
            a.valid(),
        ensures
            ok,
            *final(self) == *old(self),
            old(self).fp_call_effect(*old(ir), *final(ir), FpCall { helper: old(self).fp.fcvt_s_wu, n: 1, rs: [a.rs1, 0, 0], from_gpr: true, rm: Some(a.rm), rd: a.rd, to_gpr: false, dirty: true }),
    {
        let c = FpCall { helper: self.fp.fcvt_s_wu, n: 1, rs: [a.rs1, 0, 0], from_gpr: true, rm: Some(a.rm), rd: a.rd, to_gpr: false, dirty: true };
        self.gen_fp_call(ir, c)
    }

    /// `fcvt.l.s`, through its helper.
    pub fn trans_fcvt_l_s(&mut self, ir: &mut Context, a: &ArgsR2Rm) -> (ok: bool)
        requires
            room(*old(ir), 64),
            a.valid(),
        ensures
            ok,
            *final(self) == *old(self),
            old(self).fp_call_effect(*old(ir), *final(ir), FpCall { helper: old(self).fp.fcvt_l_s, n: 1, rs: [a.rs1, 0, 0], from_gpr: false, rm: Some(a.rm), rd: a.rd, to_gpr: true, dirty: false }),
    {
        let c = FpCall { helper: self.fp.fcvt_l_s, n: 1, rs: [a.rs1, 0, 0], from_gpr: false, rm: Some(a.rm), rd: a.rd, to_gpr: true, dirty: false };
        self.gen_fp_call(ir, c)
    }

    /// `fcvt.lu.s`, through its helper.
    pub fn trans_fcvt_lu_s(&mut self, ir: &mut Context, a: &ArgsR2Rm) -> (ok: bool)
        requires
            room(*old(ir), 64),
            a.valid(),
        ensures
            ok,
            *final(self) == *old(self),
            old(self).fp_call_effect(*old(ir), *final(ir), FpCall { helper: old(self).fp.fcvt_lu_s, n: 1, rs: [a.rs1, 0, 0], from_gpr: false, rm: Some(a.rm), rd: a.rd, to_gpr: true, dirty: false }),
    {
        let c = FpCall { helper: self.fp.fcvt_lu_s, n: 1, rs: [a.rs1, 0, 0], from_gpr: false, rm: Some(a.rm), rd: a.rd, to_gpr: true, dirty: false };
        self.gen_fp_call(ir, c)
    }

    /// `fcvt.s.l`, through its helper.
    pub fn trans_fcvt_s_l(&mut self, ir: &mut Context, a: &ArgsR2Rm) -> (ok: bool)
        requires
            room(*old(ir), 64),
            a.valid(),
        ensures
            ok,
            *final(self) == *old(self),
            old(self).fp_call_effect(*old(ir), *final(ir), FpCall { helper: old(self).fp.fcvt_s_l, n: 1, rs: [a.rs1, 0, 0], from_gpr: true, rm: Some(a.rm), rd: a.rd, to_gpr: false, dirty: true }),
    {
        let c = FpCall { helper: self.fp.fcvt_s_l, n: 1, rs: [a.rs1, 0, 0], from_gpr: true, rm: Some(a.rm), rd: a.rd, to_gpr: false, dirty: true };
        self.gen_fp_call(ir, c)
    }

    /// `fcvt.s.lu`, through its helper.
    pub fn trans_fcvt_s_lu(&mut self, ir: &mut Context, a: &ArgsR2Rm) -> (ok: bool)
        requires
            room(*old(ir), 64),
            a.valid(),
        ensures
            ok,
            *final(self) == *old(self),
            old(self).fp_call_effect(*old(ir), *final(ir), FpCall { helper: old(self).fp.fcvt_s_lu, n: 1, rs: [a.rs1, 0, 0], from_gpr: true, rm: Some(a.rm), rd: a.rd, to_gpr: false, dirty: true }),
    {
        let c = FpCall { helper: self.fp.fcvt_s_lu, n: 1, rs: [a.rs1, 0, 0], from_gpr: true, rm: Some(a.rm), rd: a.rd, to_gpr: false, dirty: true };
        self.gen_fp_call(ir, c)
    }

    /// `fmadd.d`, through its helper.
    pub fn trans_fmadd_d(&mut self, ir: &mut Context, a: &ArgsR4Rm) -> (ok: bool)
        requires
            room(*old(ir), 64),
            a.valid(),
        ensures
            ok,
            *final(self) == *old(self),
            old(self).fp_call_effect(*old(ir), *final(ir), FpCall { helper: old(self).fp.fmadd_d, n: 3, rs: [a.rs1, a.rs2, a.rs3], from_gpr: false, rm: Some(a.rm), rd: a.rd, to_gpr: false, dirty: true }),
    {
        let c = FpCall { helper: self.fp.fmadd_d, n: 3, rs: [a.rs1, a.rs2, a.rs3], from_gpr: false, rm: Some(a.rm), rd: a.rd, to_gpr: false, dirty: true };
        self.gen_fp_call(ir, c)
    }

    /// `fmsub.d`, through its helper.
    pub fn trans_fmsub_d(&mut self, ir: &mut Context, a: &ArgsR4Rm) -> (ok: bool)
        requires
            room(*old(ir), 64),
            a.valid(),
        ensures
            ok,
            *final(self) == *old(self),
            old(self).fp_call_effect(*old(ir), *final(ir), FpCall { helper: old(self).fp.fmsub_d, n: 3, rs: [a.rs1, a.rs2, a.rs3], from_gpr: false, rm: Some(a.rm), rd: a.rd, to_gpr: false, dirty: true }),
    {
        let c = FpCall { helper: self.fp.fmsub_d, n: 3, rs: [a.rs1, a.rs2, a.rs3], from_gpr: false, rm: Some(a.rm), rd: a.rd, to_gpr: false, dirty: true };
        self.gen_fp_call(ir, c)
    }

    /// `fnmsub.d`, through its helper.
    pub fn trans_fnmsub_d(&mut self, ir: &mut Context, a: &ArgsR4Rm) -> (ok: bool)
        requires
            room(*old(ir), 64),
            a.valid(),
        ensures
            ok,
            *final(self) == *old(self),
            old(self).fp_call_effect(*old(ir), *final(ir), FpCall { helper: old(self).fp.fnmsub_d, n: 3, rs: [a.rs1, a.rs2, a.rs3], from_gpr: false, rm: Some(a.rm), rd: a.rd, to_gpr: false, dirty: true }),
    {
        let c = FpCall { helper: self.fp.fnmsub_d, n: 3, rs: [a.rs1, a.rs2, a.rs3], from_gpr: false, rm: Some(a.rm), rd: a.rd, to_gpr: false, dirty: true };
        self.gen_fp_call(ir, c)
    }

    /// `fnmadd.d`, through its helper.
    pub fn trans_fnmadd_d(&mut self, ir: &mut Context, a: &ArgsR4Rm) -> (ok: bool)
        requires
            room(*old(ir), 64),
            a.valid(),
        ensures
            ok,
            *final(self) == *old(self),
            old(self).fp_call_effect(*old(ir), *final(ir), FpCall { helper: old(self).fp.fnmadd_d, n: 3, rs: [a.rs1, a.rs2, a.rs3], from_gpr: false, rm: Some(a.rm), rd: a.rd, to_gpr: false, dirty: true }),
    {
        let c = FpCall { helper: self.fp.fnmadd_d, n: 3, rs: [a.rs1, a.rs2, a.rs3], from_gpr: false, rm: Some(a.rm), rd: a.rd, to_gpr: false, dirty: true };
        self.gen_fp_call(ir, c)
    }

    /// `fadd.d`, through its helper.
    pub fn trans_fadd_d(&mut self, ir: &mut Context, a: &ArgsRRm) -> (ok: bool)
        requires
            room(*old(ir), 64),
            a.valid(),
        ensures
            ok,
            *final(self) == *old(self),
            old(self).fp_call_effect(*old(ir), *final(ir), FpCall { helper: old(self).fp.fadd_d, n: 2, rs: [a.rs1, a.rs2, 0], from_gpr: false, rm: Some(a.rm), rd: a.rd, to_gpr: false, dirty: true }),
    {
        let c = FpCall { helper: self.fp.fadd_d, n: 2, rs: [a.rs1, a.rs2, 0], from_gpr: false, rm: Some(a.rm), rd: a.rd, to_gpr: false, dirty: true };
        self.gen_fp_call(ir, c)
    }

    /// `fsub.d`, through its helper.
    pub fn trans_fsub_d(&mut self, ir: &mut Context, a: &ArgsRRm) -> (ok: bool)
        requires
            room(*old(ir), 64),
            a.valid(),
        ensures
            ok,
            *final(self) == *old(self),
            old(self).fp_call_effect(*old(ir), *final(ir), FpCall { helper: old(self).fp.fsub_d, n: 2, rs: [a.rs1, a.rs2, 0], from_gpr: false, rm: Some(a.rm), rd: a.rd, to_gpr: false, dirty: true }),
    {
        let c = FpCall { helper: self.fp.fsub_d, n: 2, rs: [a.rs1, a.rs2, 0], from_gpr: false, rm: Some(a.rm), rd: a.rd, to_gpr: false, dirty: true };
        self.gen_fp_call(ir, c)
    }

    /// `fmul.d`, through its helper.
    pub fn trans_fmul_d(&mut self, ir: &mut Context, a: &ArgsRRm) -> (ok: bool)
        requires
            room(*old(ir), 64),
            a.valid(),
        ensures
            ok,
            *final(self) == *old(self),
            old(self).fp_call_effect(*old(ir), *final(ir), FpCall { helper: old(self).fp.fmul_d, n: 2, rs: [a.rs1, a.rs2, 0], from_gpr: false, rm: Some(a.rm), rd: a.rd, to_gpr: false, dirty: true }),
    {
        let c = FpCall { helper: self.fp.fmul_d, n: 2, rs: [a.rs1, a.rs2, 0], from_gpr: false, rm: Some(a.rm), rd: a.rd, to_gpr: false, dirty: true };
        self.gen_fp_call(ir, c)
    }

    /// `fdiv.d`, through its helper.
    pub fn trans_fdiv_d(&mut self, ir: &mut Context, a: &ArgsRRm) -> (ok: bool)
        requires
            room(*old(ir), 64),
            a.valid(),
        ensures
            ok,
            *final(self) == *old(self),
            old(self).fp_call_effect(*old(ir), *final(ir), FpCall { helper: old(self).fp.fdiv_d, n: 2, rs: [a.rs1, a.rs2, 0], from_gpr: false, rm: Some(a.rm), rd: a.rd, to_gpr: false, dirty: true }),
    {
        let c = FpCall { helper: self.fp.fdiv_d, n: 2, rs: [a.rs1, a.rs2, 0], from_gpr: false, rm: Some(a.rm), rd: a.rd, to_gpr: false, dirty: true };
        self.gen_fp_call(ir, c)
    }

    /// `fsqrt.d`, through its helper.
    pub fn trans_fsqrt_d(&mut self, ir: &mut Context, a: &ArgsR2Rm) -> (ok: bool)
        requires
            room(*old(ir), 64),
            a.valid(),
        ensures
            ok,
            *final(self) == *old(self),
            old(self).fp_call_effect(*old(ir), *final(ir), FpCall { helper: old(self).fp.fsqrt_d, n: 1, rs: [a.rs1, 0, 0], from_gpr: false, rm: Some(a.rm), rd: a.rd, to_gpr: false, dirty: true }),
    {
        let c = FpCall { helper: self.fp.fsqrt_d, n: 1, rs: [a.rs1, 0, 0], from_gpr: false, rm: Some(a.rm), rd: a.rd, to_gpr: false, dirty: true };
        self.gen_fp_call(ir, c)
    }

    /// `fsgnj.d`, through its helper.
    pub fn trans_fsgnj_d(&mut self, ir: &mut Context, a: &ArgsR) -> (ok: bool)
        requires
            room(*old(ir), 64),
            a.valid(),
        ensures
            ok,
            *final(self) == *old(self),
            old(self).fp_call_effect(*old(ir), *final(ir), FpCall { helper: old(self).fp.fsgnj_d, n: 2, rs: [a.rs1, a.rs2, 0], from_gpr: false, rm: None, rd: a.rd, to_gpr: false, dirty: true }),
    {
        let c = FpCall { helper: self.fp.fsgnj_d, n: 2, rs: [a.rs1, a.rs2, 0], from_gpr: false, rm: None, rd: a.rd, to_gpr: false, dirty: true };
        self.gen_fp_call(ir, c)
    }

    /// `fsgnjn.d`, through its helper.
    pub fn trans_fsgnjn_d(&mut self, ir: &mut Context, a: &ArgsR) -> (ok: bool)
        requires
            room(*old(ir), 64),
            a.valid(),
        ensures
            ok,
            *final(self) == *old(self),
            old(self).fp_call_effect(*old(ir), *final(ir), FpCall { helper: old(self).fp.fsgnjn_d, n: 2, rs: [a.rs1, a.rs2, 0], from_gpr: false, rm: None, rd: a.rd, to_gpr: false, dirty: true }),
    {
        let c = FpCall { helper: self.fp.fsgnjn_d, n: 2, rs: [a.rs1, a.rs2, 0], from_gpr: false, rm: None, rd: a.rd, to_gpr: false, dirty: true };
        self.gen_fp_call(ir, c)
    }

    /// `fsgnjx.d`, through its helper.
    pub fn trans_fsgnjx_d(&mut self, ir: &mut Context, a: &ArgsR) -> (ok: bool)
        requires
            room(*old(ir), 64),
            a.valid(),
        ensures
            ok,
            *final(self) == *old(self),
            old(self).fp_call_effect(*old(ir), *final(ir), FpCall { helper: old(self).fp.fsgnjx_d, n: 2, rs: [a.rs1, a.rs2, 0], from_gpr: false, rm: None, rd: a.rd, to_gpr: false, dirty: true }),
    {
        let c = FpCall { helper: self.fp.fsgnjx_d, n: 2, rs: [a.rs1, a.rs2, 0], from_gpr: false, rm: None, rd: a.rd, to_gpr: false, dirty: true };
        self.gen_fp_call(ir, c)
    }

    /// `fmin.d`, through its helper.
    pub fn trans_fmin_d(&mut self, ir: &mut Context, a: &ArgsR) -> (ok: bool)
        requires
            room(*old(ir), 64),
            a.valid(),
        ensures
            ok,
            *final(self) == *old(self),
            old(self).fp_call_effect(*old(ir), *final(ir), FpCall { helper: old(self).fp.fmin_d, n: 2, rs: [a.rs1, a.rs2, 0], from_gpr: false, rm: None, rd: a.rd, to_gpr: false, dirty: true }),
    {
        let c = FpCall { helper: self.fp.fmin_d, n: 2, rs: [a.rs1, a.rs2, 0], from_gpr: false, rm: None, rd: a.rd, to_gpr: false, dirty: true };
        self.gen_fp_call(ir, c)
    }

    /// `fmax.d`, through its helper.
    pub fn trans_fmax_d(&mut self, ir: &mut Context, a: &ArgsR) -> (ok: bool)
        requires
            room(*old(ir), 64),
            a.valid(),
        ensures
            ok,
            *final(self) == *old(self),
            old(self).fp_call_effect(*old(ir), *final(ir), FpCall { helper: old(self).fp.fmax_d, n: 2, rs: [a.rs1, a.rs2, 0], from_gpr: false, rm: None, rd: a.rd, to_gpr: false, dirty: true }),
    {
        let c = FpCall { helper: self.fp.fmax_d, n: 2, rs: [a.rs1, a.rs2, 0], from_gpr: false, rm: None, rd: a.rd, to_gpr: false, dirty: true };
        self.gen_fp_call(ir, c)
    }

    /// `feq.d`, through its helper.
    pub fn trans_feq_d(&mut self, ir: &mut Context, a: &ArgsR) -> (ok: bool)
        requires
            room(*old(ir), 64),
            a.valid(),
        ensures
            ok,
            *final(self) == *old(self),
            old(self).fp_call_effect(*old(ir), *final(ir), FpCall { helper: old(self).fp.feq_d, n: 2, rs: [a.rs1, a.rs2, 0], from_gpr: false, rm: None, rd: a.rd, to_gpr: true, dirty: false }),
    {
        let c = FpCall { helper: self.fp.feq_d, n: 2, rs: [a.rs1, a.rs2, 0], from_gpr: false, rm: None, rd: a.rd, to_gpr: true, dirty: false };
        self.gen_fp_call(ir, c)
    }

    /// `flt.d`, through its helper.
    pub fn trans_flt_d(&mut self, ir: &mut Context, a: &ArgsR) -> (ok: bool)
        requires
            room(*old(ir), 64),
            a.valid(),
        ensures
            ok,
            *final(self) == *old(self),
            old(self).fp_call_effect(*old(ir), *final(ir), FpCall { helper: old(self).fp.flt_d, n: 2, rs: [a.rs1, a.rs2, 0], from_gpr: false, rm: None, rd: a.rd, to_gpr: true, dirty: false }),
    {
        let c = FpCall { helper: self.fp.flt_d, n: 2, rs: [a.rs1, a.rs2, 0], from_gpr: false, rm: None, rd: a.rd, to_gpr: true, dirty: false };
        self.gen_fp_call(ir, c)
    }

    /// `fle.d`, through its helper.
    pub fn trans_fle_d(&mut self, ir: &mut Context, a: &ArgsR) -> (ok: bool)
        requires
            room(*old(ir), 64),
            a.valid(),
        ensures
            ok,
            *final(self) == *old(self),
            old(self).fp_call_effect(*old(ir), *final(ir), FpCall { helper: old(self).fp.fle_d, n: 2, rs: [a.rs1, a.rs2, 0], from_gpr: false, rm: None, rd: a.rd, to_gpr: true, dirty: false }),
    {
        let c = FpCall { helper: self.fp.fle_d, n: 2, rs: [a.rs1, a.rs2, 0], from_gpr: false, rm: None, rd: a.rd, to_gpr: true, dirty: false };
        self.gen_fp_call(ir, c)
    }

    /// `fclass.d`, through its helper.
    pub fn trans_fclass_d(&mut self, ir: &mut Context, a: &ArgsR2) -> (ok: bool)
        requires
            room(*old(ir), 64),
            a.valid(),
        ensures
            ok,
            *final(self) == *old(self),
            old(self).fp_call_effect(*old(ir), *final(ir), FpCall { helper: old(self).fp.fclass_d, n: 1, rs: [a.rs1, 0, 0], from_gpr: false, rm: None, rd: a.rd, to_gpr: true, dirty: false }),
    {
        let c = FpCall { helper: self.fp.fclass_d, n: 1, rs: [a.rs1, 0, 0], from_gpr: false, rm: None, rd: a.rd, to_gpr: true, dirty: false };
        self.gen_fp_call(ir, c)
    }

    /// `fcvt.s.d`, through its helper.
    pub fn trans_fcvt_s_d(&mut self, ir: &mut Context, a: &ArgsR2Rm) -> (ok: bool)
        requires
            room(*old(ir), 64),
            a.valid(),
        ensures
            ok,
            *final(self) == *old(self),
            old(self).fp_call_effect(*old(ir), *final(ir), FpCall { helper: old(self).fp.fcvt_s_d, n: 1, rs: [a.rs1, 0, 0], from_gpr: false, rm: Some(a.rm), rd: a.rd, to_gpr: false, dirty: true }),
    {
        let c = FpCall { helper: self.fp.fcvt_s_d, n: 1, rs: [a.rs1, 0, 0], from_gpr: false, rm: Some(a.rm), rd: a.rd, to_gpr: false, dirty: true };
        self.gen_fp_call(ir, c)
    }

    /// `fcvt.d.s`, through its helper.
    pub fn trans_fcvt_d_s(&mut self, ir: &mut Context, a: &ArgsR2Rm) -> (ok: bool)
        requires
            room(*old(ir), 64),
            a.valid(),
        ensures
            ok,
            *final(self) == *old(self),
            old(self).fp_call_effect(*old(ir), *final(ir), FpCall { helper: old(self).fp.fcvt_d_s, n: 1, rs: [a.rs1, 0, 0], from_gpr: false, rm: Some(a.rm), rd: a.rd, to_gpr: false, dirty: true }),
    {
        let c = FpCall { helper: self.fp.fcvt_d_s, n: 1, rs: [a.rs1, 0, 0], from_gpr: false, rm: Some(a.rm), rd: a.rd, to_gpr: false, dirty: true };
        self.gen_fp_call(ir, c)
    }

    /// `fcvt.w.d`, through its helper.
    pub fn trans_fcvt_w_d(&mut self, ir: &mut Context, a: &ArgsR2Rm) -> (ok: bool)
        requires
            room(*old(ir), 64),
            a.valid(),
        ensures
            ok,
            *final(self) == *old(self),
            old(self).fp_call_effect(*old(ir), *final(ir), FpCall { helper: old(self).fp.fcvt_w_d, n: 1, rs: [a.rs1, 0, 0], from_gpr: false, rm: Some(a.rm), rd: a.rd, to_gpr: true, dirty: false }),
    {
        let c = FpCall { helper: self.fp.fcvt_w_d, n: 1, rs: [a.rs1, 0, 0], from_gpr: false, rm: Some(a.rm), rd: a.rd, to_gpr: true, dirty: false };
        self.gen_fp_call(ir, c)
    }

    /// `fcvt.wu.d`, through its helper.
    pub fn trans_fcvt_wu_d(&mut self, ir: &mut Context, a: &ArgsR2Rm) -> (ok: bool)
        requires
            room(*old(ir), 64),
            a.valid(),
        ensures
            ok,
            *final(self) == *old(self),
            old(self).fp_call_effect(*old(ir), *final(ir), FpCall { helper: old(self).fp.fcvt_wu_d, n: 1, rs: [a.rs1, 0, 0], from_gpr: false, rm: Some(a.rm), rd: a.rd, to_gpr: true, dirty: false }),
    {
        let c = FpCall { helper: self.fp.fcvt_wu_d, n: 1, rs: [a.rs1, 0, 0], from_gpr: false, rm: Some(a.rm), rd: a.rd, to_gpr: true, dirty: false };
        self.gen_fp_call(ir, c)
    }

    /// `fcvt.d.w`, through its helper.
    pub fn trans_fcvt_d_w(&mut self, ir: &mut Context, a: &ArgsR2Rm) -> (ok: bool)
        requires
            room(*old(ir), 64),
            a.valid(),
        ensures
            ok,
            *final(self) == *old(self),
            old(self).fp_call_effect(*old(ir), *final(ir), FpCall { helper: old(self).fp.fcvt_d_w, n: 1, rs: [a.rs1, 0, 0], from_gpr: true, rm: Some(a.rm), rd: a.rd, to_gpr: false, dirty: true }),
    {
        let c = FpCall { helper: self.fp.fcvt_d_w, n: 1, rs: [a.rs1, 0, 0], from_gpr: true, rm: Some(a.rm), rd: a.rd, to_gpr: false, dirty: true };
        self.gen_fp_call(ir, c)
    }

    /// `fcvt.d.wu`, through its helper.
    pub fn trans_fcvt_d_wu(&mut self, ir: &mut Context, a: &ArgsR2Rm) -> (ok: bool)
        requires
            room(*old(ir), 64),
            a.valid(),
        ensures
            ok,
            *final(self) == *old(self),
            old(self).fp_call_effect(*old(ir), *final(ir), FpCall { helper: old(self).fp.fcvt_d_wu, n: 1, rs: [a.rs1, 0, 0], from_gpr: true, rm: Some(a.rm), rd: a.rd, to_gpr: false, dirty: true }),
    {
        let c = FpCall { helper: self.fp.fcvt_d_wu, n: 1, rs: [a.rs1, 0, 0], from_gpr: true, rm: Some(a.rm), rd: a.rd, to_gpr: false, dirty: true };
        self.gen_fp_call(ir, c)
    }

    /// `fcvt.l.d`, through its helper.
    pub fn trans_fcvt_l_d(&mut self, ir: &mut Context, a: &ArgsR2Rm) -> (ok: bool)
        requires
            room(*old(ir), 64),
            a.valid(),
        ensures
            ok,
            *final(self) == *old(self),
            old(self).fp_call_effect(*old(ir), *final(ir), FpCall { helper: old(self).fp.fcvt_l_d, n: 1, rs: [a.rs1, 0, 0], from_gpr: false, rm: Some(a.rm), rd: a.rd, to_gpr: true, dirty: false }),
    {
        let c = FpCall { helper: self.fp.fcvt_l_d, n: 1, rs: [a.rs1, 0, 0], from_gpr: false, rm: Some(a.rm), rd: a.rd, to_gpr: true, dirty: false };
        self.gen_fp_call(ir, c)
    }

    /// `fcvt.lu.d`, through its helper.
    pub fn trans_fcvt_lu_d(&mut self, ir: &mut Context, a: &ArgsR2Rm) -> (ok: bool)
        requires
            room(*old(ir), 64),
            a.valid(),
        ensures
            ok,
            *final(self) == *old(self),
            old(self).fp_call_effect(*old(ir), *final(ir), FpCall { helper: old(self).fp.fcvt_lu_d, n: 1, rs: [a.rs1, 0, 0], from_gpr: false, rm: Some(a.rm), rd: a.rd, to_gpr: true, dirty: false }),
    {
        let c = FpCall { helper: self.fp.fcvt_lu_d, n: 1, rs: [a.rs1, 0, 0], from_gpr: false, rm: Some(a.rm), rd: a.rd, to_gpr: true, dirty: false };
        self.gen_fp_call(ir, c)
    }

    /// `fcvt.d.l`, through its helper.
    pub fn trans_fcvt_d_l(&mut self, ir: &mut Context, a: &ArgsR2Rm) -> (ok: bool)
        requires
            room(*old(ir), 64),
            a.valid(),
        ensures
            ok,
            *final(self) == *old(self),
            old(self).fp_call_effect(*old(ir), *final(ir), FpCall { helper: old(self).fp.fcvt_d_l, n: 1, rs: [a.rs1, 0, 0], from_gpr: true, rm: Some(a.rm), rd: a.rd, to_gpr: false, dirty: true }),
    {
        let c = FpCall { helper: self.fp.fcvt_d_l, n: 1, rs: [a.rs1, 0, 0], from_gpr: true, rm: Some(a.rm), rd: a.rd, to_gpr: false, dirty: true };
        self.gen_fp_call(ir, c)
    }

    /// `fcvt.d.lu`, through its helper.
    pub fn trans_fcvt_d_lu(&mut self, ir: &mut Context, a: &ArgsR2Rm) -> (ok: bool)
        requires
            room(*old(ir), 64),
            a.valid(),
        ensures
            ok,
            *final(self) == *old(self),
            old(self).fp_call_effect(*old(ir), *final(ir), FpCall { helper: old(self).fp.fcvt_d_lu, n: 1, rs: [a.rs1, 0, 0], from_gpr: true, rm: Some(a.rm), rd: a.rd, to_gpr: false, dirty: true }),
    {
        let c = FpCall { helper: self.fp.fcvt_d_lu, n: 1, rs: [a.rs1, 0, 0], from_gpr: true, rm: Some(a.rm), rd: a.rd, to_gpr: false, dirty: true };
        self.gen_fp_call(ir, c)
    }
}

} // verus!
