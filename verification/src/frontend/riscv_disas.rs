use vstd::prelude::*;

use crate::context::Context;
use crate::frontend::emit::OpShape;
use crate::frontend::emit::{builds, constant, emit_exit_tb, emit_insn_start, emit_mov, grown, lemma_begin, room};
use crate::frontend::riscv_cpu::{gpr_offset, LOAD_RES_OFFSET, LOAD_VAL_OFFSET, NUM_GPRS, PC_OFFSET};
use crate::ir_builder::spec_carg;
use crate::temp::TempKind;
use crate::frontend::{DisasContextBase, DisasJumpType};
use crate::opcode::Opcode;
use crate::temp::TempIdx;
use crate::types::Type;

verus! {

/// Most guest instructions in one block.
pub const MAX_BLOCK_INSNS: u32 = 512;

/// Host addresses of the floating-point helper functions that translated
/// code calls, one per operation.
#[derive(Debug, Clone, Copy, PartialEq, Eq, Structural, Default)]
pub struct FpHelpers {
    pub fadd_s: u64,
    pub fsub_s: u64,
    pub fmul_s: u64,
    pub fdiv_s: u64,
    pub fsqrt_s: u64,
    pub fmadd_s: u64,
    pub fmsub_s: u64,
    pub fnmsub_s: u64,
    pub fnmadd_s: u64,
    pub fsgnj_s: u64,
    pub fsgnjn_s: u64,
    pub fsgnjx_s: u64,
    pub fmin_s: u64,
    pub fmax_s: u64,
    pub feq_s: u64,
    pub flt_s: u64,
    pub fle_s: u64,
    pub fclass_s: u64,
    pub fcvt_w_s: u64,
    pub fcvt_wu_s: u64,
    pub fcvt_l_s: u64,
    pub fcvt_lu_s: u64,
    pub fcvt_s_w: u64,
    pub fcvt_s_wu: u64,
    pub fcvt_s_l: u64,
    pub fcvt_s_lu: u64,
    pub fadd_d: u64,
    pub fsub_d: u64,
    pub fmul_d: u64,
    pub fdiv_d: u64,
    pub fsqrt_d: u64,
    pub fmadd_d: u64,
    pub fmsub_d: u64,
    pub fnmsub_d: u64,
    pub fnmadd_d: u64,
    pub fsgnj_d: u64,
    pub fsgnjn_d: u64,
    pub fsgnjx_d: u64,
    pub fmin_d: u64,
    pub fmax_d: u64,
    pub feq_d: u64,
    pub flt_d: u64,
    pub fle_d: u64,
    pub fclass_d: u64,
    pub fcvt_w_d: u64,
    pub fcvt_wu_d: u64,
    pub fcvt_l_d: u64,
    pub fcvt_lu_d: u64,
    pub fcvt_d_w: u64,
    pub fcvt_d_wu: u64,
    pub fcvt_d_l: u64,
    pub fcvt_d_lu: u64,
    pub fcvt_s_d: u64,
    pub fcvt_d_s: u64,
}

/// RISC-V translation state: the shared base plus the IR globals that stand
/// for the guest registers.
#[derive(Debug, Clone, Copy)]
pub struct RiscvDisasContext {
    pub base: DisasContextBase,
    /// The env pointer, fixed to a host register.
    pub env: TempIdx,
    /// Globals for x0-x31.
    pub gpr: [TempIdx; NUM_GPRS],
    /// Global for the guest PC.
    pub pc: TempIdx,
    /// Global for the LR reservation address.
    pub load_res: TempIdx,
    /// Global for the value LR loaded.
    pub load_val: TempIdx,
    /// Raw instruction word being translated.
    pub opcode: u32,
    /// Length of the current instruction (2 or 4).
    pub cur_insn_len: u32,
    /// The floating-point helpers.
    pub fp: FpHelpers,
}

impl RiscvDisasContext {
    /// A context for a block starting at `pc`; the IR globals are set up by
    /// `init_disas_context`.
    pub fn new(pc: u64, fp: FpHelpers) -> (c: Self)
        ensures
            c.base == (DisasContextBase {
                pc_first: pc,
                pc_next: pc,
                is_jmp: DisasJumpType::Next,
                num_insns: 0,
                max_insns: MAX_BLOCK_INSNS,
            }),
            c.env == TempIdx(0),
            forall|i: int| 0 <= i < NUM_GPRS ==> c.gpr@[i] == TempIdx(0),
            c.pc == TempIdx(0),
            c.load_res == TempIdx(0),
            c.load_val == TempIdx(0),
            c.opcode == 0,
            c.cur_insn_len == 4,
            c.fp == fp,
    {
        RiscvDisasContext {
            base: DisasContextBase::new(pc, MAX_BLOCK_INSNS),
            env: TempIdx(0),
            gpr: [TempIdx(0); NUM_GPRS],
            pc: TempIdx(0),
            load_res: TempIdx(0),
            load_val: TempIdx(0),
            opcode: 0,
            cur_insn_len: 4,
            fp,
        }
    }

    /// The temp an instruction reads for register `idx` in the IR `c`: the
    /// zero constant for x0, else the register's global.
    pub open spec fn src(self, c: Context, idx: i64) -> TempIdx {
        if idx == 0 {
            c.const_of(Type::I64, 0)->0
        } else {
            self.gpr@[idx as int]
        }
    }

    /// Reading `idx` in `c` is defined: x0 has its zero constant.
    pub open spec fn src_ok(self, c: Context, idx: i64) -> bool {
        idx == 0 ==> c.const_of(Type::I64, 0) is Some
    }

    /// The ops that write `v` to register `rd`: none for x0.
    pub open spec fn set_gpr_ops(self, rd: i64, v: TempIdx) -> Seq<OpShape> {
        if rd != 0 {
            seq![(Opcode::Mov, Type::I64, seq![self.gpr@[rd as int], v])]
        } else {
            seq![]
        }
    }

    /// The ops that write the sign extension of the 32-bit `v` to `rd`.
    pub open spec fn set_gpr_sx32_ops(self, rd: i64, v: TempIdx) -> Seq<OpShape> {
        if rd != 0 {
            seq![(Opcode::ExtI32I64, Type::I64, seq![self.gpr@[rd as int], v])]
        } else {
            seq![]
        }
    }
}

/// Temp `k` of `c` is a 64-bit global at `base + off`.
pub open spec fn global_at(c: Context, k: int, base: TempIdx, off: i64) -> bool {
    &&& c.temps_view()[k].kind == TempKind::Global
    &&& c.temps_view()[k].ty == Type::I64
    &&& c.temps_view()[k].mem_base == Some(base)
    &&& c.temps_view()[k].mem_offset == off
}

/// Whether the raw instruction `opcode` of `len` bytes is a floating-point
/// instruction: by its major opcode for 32-bit ones, by its quadrant and
/// function for the compressed `c.fld`/`c.fsd`/`c.fldsp`/`c.fsdsp`.
pub open spec fn spec_is_fp_insn(opcode: u32, len: u32) -> bool {
    if len == 4 {
        let op7 = opcode & 0x7f;
        op7 == 0x07 || op7 == 0x27 || op7 == 0x43 || op7 == 0x47 || op7 == 0x4b || op7 == 0x4f || op7 == 0x53
    } else {
        let f3 = (opcode >> 13u32) & 0x7;
        let q = opcode & 0x3;
        (f3 == 1 || f3 == 5) && (q == 0 || q == 2)
    }
}

/// Whether the half-word that starts an instruction makes it a compressed
/// (16-bit) one.
pub fn is_compressed(half: u16) -> (r: bool)
    ensures
        r == (half & 0x3 != 0x3),
{
    half & 0x3 != 0x3
}

impl RiscvDisasContext {
    /// The globals of `self` are the ones `init_disas_context` makes from
    /// temp `n` on: the env register, x0-x31, pc, the reservation address
    /// and value.
    pub open spec fn globals_at(self, c: Context, n: int) -> bool {
        &&& self.env == TempIdx(n as u32)
        &&& c.temps_view()[n].kind == TempKind::Fixed
        &&& c.temps_view()[n].ty == Type::I64
        &&& c.temps_view()[n].reg == Some(5u8)
        &&& forall|i: int| 0 <= i < NUM_GPRS ==> #[trigger] self.gpr@[i] == TempIdx((n + 1 + i) as u32)
        &&& forall|i: int| 0 <= i < NUM_GPRS ==> #[trigger] global_at(c, n + 1 + i, self.env, (i * 8) as i64)
        &&& self.pc == TempIdx((n + 33) as u32) && global_at(c, n + 33, self.env, PC_OFFSET)
        &&& self.load_res == TempIdx((n + 34) as u32) && global_at(c, n + 34, self.env, LOAD_RES_OFFSET)
        &&& self.load_val == TempIdx((n + 35) as u32) && global_at(c, n + 35, self.env, LOAD_VAL_OFFSET)
    }

    /// Register the env pointer (fixed to host register 5) and the guest
    /// registers as globals at their offsets in the CPU state.
    pub fn init_disas_context(&mut self, ir: &mut Context)
        requires
            old(ir).wf(),
            old(ir).temps_view().len() == old(ir).spec_nb_globals(),
            old(ir).temps_view().len() + 40 < u32::MAX,
        ensures
            final(self).base == old(self).base,
            final(self).opcode == old(self).opcode,
            final(self).cur_insn_len == old(self).cur_insn_len,
            final(self).fp == old(self).fp,
            final(self).globals_at(*final(ir), old(ir).temps_view().len() as int),
            final(ir).wf(),
            final(ir).temps_view().len() == old(ir).temps_view().len() + 36,
            final(ir).spec_nb_globals() == old(ir).spec_nb_globals() + 36,
            forall|i: int| 0 <= i < old(ir).temps_view().len() ==> #[trigger] final(ir).temps_view()[i] == old(ir).temps_view()[i],
            final(ir).ops_view() == old(ir).ops_view(),
            final(ir).labels_view() == old(ir).labels_view(),
            final(ir).consts_view() == old(ir).consts_view(),
    {
        let ghost n = old(ir).temps_view().len() as int;
        self.env = ir.new_fixed(Type::I64, 5, "env");
        let ghost c1 = *ir;
        let mut i: usize = 0;
        while i < NUM_GPRS
            invariant
                0 <= i <= NUM_GPRS,
                n + 40 < u32::MAX,
                n == old(ir).temps_view().len(),
                c1.temps_view().len() == n + 1,
                ir.wf(),
                ir.temps_view().len() == n + 1 + i,
                ir.temps_view().len() == ir.spec_nb_globals(),
                self.env == TempIdx(n as u32),
                self.base == old(self).base,
                self.opcode == old(self).opcode,
                self.cur_insn_len == old(self).cur_insn_len,
                self.fp == old(self).fp,
                c1.temps_view()[n].kind == TempKind::Fixed,
                c1.temps_view()[n].ty == Type::I64,
                c1.temps_view()[n].reg == Some(5u8),
                forall|j: int| 0 <= j < n ==> #[trigger] c1.temps_view()[j] == old(ir).temps_view()[j],
                forall|j: int| 0 <= j <= n ==> #[trigger] ir.temps_view()[j] == c1.temps_view()[j],
                forall|j: int| 0 <= j < i ==> #[trigger] self.gpr@[j] == TempIdx((n + 1 + j) as u32),
                forall|j: int| 0 <= j < i ==> #[trigger] global_at(*ir, n + 1 + j, self.env, (j * 8) as i64),
                ir.ops_view() == old(ir).ops_view(),
                ir.labels_view() == old(ir).labels_view(),
                ir.consts_view() == old(ir).consts_view(),
            decreases NUM_GPRS - i,
        {
            let ghost before = *ir;
            let t = ir.new_global(Type::I64, self.env, gpr_offset(i), "gpr");
            self.gpr[i] = t;
            assert forall|j: int| 0 <= j < i + 1 implies #[trigger] global_at(*ir, n + 1 + j, self.env, (j * 8) as i64) by {
                if j < i {
                    assert(global_at(before, n + 1 + j, self.env, (j * 8) as i64));
                    assert(ir.temps_view()[n + 1 + j] == before.temps_view()[n + 1 + j]);
                } else {
                    assert(ir.temps_view()[n + 1 + j] == ir.temps_view().last());
                    assert((i * 8) as i64 == (j * 8) as i64);
                }
            }
            i = i + 1;
        }
        let ghost c2 = *ir;
        self.pc = ir.new_global(Type::I64, self.env, PC_OFFSET, "pc");
        self.load_res = ir.new_global(Type::I64, self.env, LOAD_RES_OFFSET, "load_res");
        self.load_val = ir.new_global(Type::I64, self.env, LOAD_VAL_OFFSET, "load_val");
        assert forall|j: int| 0 <= j < n + 33 implies #[trigger] ir.temps_view()[j] == c2.temps_view()[j] by {
        }
        assert forall|j: int| 0 <= j < NUM_GPRS implies #[trigger] global_at(*ir, n + 1 + j, self.env, (j * 8) as i64) by {
            assert(global_at(c2, n + 1 + j, self.env, (j * 8) as i64));
            assert(ir.temps_view()[n + 1 + j] == c2.temps_view()[n + 1 + j]);
        }
        assert(ir.temps_view()[n] == c1.temps_view()[n]);
    }

    /// Nothing happens at the start of a user-mode block.
    pub fn tb_start(&mut self, ir: &mut Context)
        ensures
            *final(self) == *old(self),
            *final(ir) == *old(ir),
    {
    }

    /// Mark the start of the next guest instruction and count it.
    pub fn insn_start(&mut self, ir: &mut Context)
        requires
            room(*old(ir), 1),
            old(self).base.num_insns < u32::MAX,
        ensures
            *final(self) == (RiscvDisasContext {
                base: DisasContextBase { num_insns: (old(self).base.num_insns + 1) as u32, ..old(self).base },
                ..*old(self)
            }),
            builds(
                *old(ir),
                *final(ir),
                seq![(Opcode::InsnStart, Type::I64, seq![spec_carg(old(self).base.pc_next as u32), spec_carg((old(self).base.pc_next >> 32) as u32)])],
            ),
            final(ir).labels_view().len() == old(ir).labels_view().len(),
            final(ir).temps_view().len() == old(ir).temps_view().len(),
    {
        let g = Ghost(*ir);
        proof {
            lemma_begin(*ir);
        }
        emit_insn_start(ir, g, self.base.pc_next);
        self.base.num_insns = self.base.num_insns + 1;
    }

    /// Record the raw instruction being translated and its length.
    pub fn set_insn(&mut self, opcode: u32, len: u32)
        ensures
            *final(self) == (RiscvDisasContext { opcode, cur_insn_len: len, ..*old(self) }),
    {
        self.opcode = opcode;
        self.cur_insn_len = len;
    }

    /// Whether the current instruction is a floating-point one.
    pub fn is_fp_insn(&self) -> (r: bool)
        ensures
            r == spec_is_fp_insn(self.opcode, self.cur_insn_len),
    {
        if self.cur_insn_len == 4 {
            let op7 = self.opcode & 0x7f;
            op7 == 0x07 || op7 == 0x27 || op7 == 0x43 || op7 == 0x47 || op7 == 0x4b || op7 == 0x4f || op7 == 0x53
        } else {
            let f3 = (self.opcode >> 13u32) & 0x7;
            let q = self.opcode & 0x3;
            (f3 == 1 || f3 == 5) && (q == 0 || q == 2)
        }
    }

    /// Finish an instruction once the decoder has run: an instruction it did
    /// not translate ends the block with exit value 3 at its PC, unless it is
    /// a floating-point one, which is skipped; then move past it.
    pub fn finish_insn(&mut self, ir: &mut Context, decoded: bool)
        requires
            room(*old(ir), 8),
            old(self).base.pc_next + old(self).cur_insn_len <= u64::MAX,
        ensures
            ({
                let exits = !decoded && !spec_is_fp_insn(old(self).opcode, old(self).cur_insn_len);
                &&& *final(self) == (RiscvDisasContext {
                    base: DisasContextBase {
                        pc_next: (old(self).base.pc_next + old(self).cur_insn_len) as u64,
                        is_jmp: if exits { DisasJumpType::NoReturn } else { old(self).base.is_jmp },
                        ..old(self).base
                    },
                    ..*old(self)
                })
                &&& builds(
                    *old(ir),
                    *final(ir),
                    if exits {
                        seq![
                            (Opcode::Mov, Type::I64, seq![old(self).pc, final(ir).const_of(Type::I64, old(self).base.pc_next)->0]),
                            (Opcode::ExitTb, Type::I64, seq![spec_carg(3u64 as u32)]),
                        ]
                    } else {
                        seq![]
                    },
                )
                &&& exits ==> final(ir).const_of(Type::I64, old(self).base.pc_next) is Some
                &&& final(ir).labels_view().len() == old(ir).labels_view().len()
            }),
    {
        let g = Ghost(*ir);
        let ghost o = *ir;
        proof {
            lemma_begin(*ir);
        }
        if !decoded {
            let is_fp = self.is_fp_insn();
            if !is_fp {
                let pc_const = constant(ir, g, Type::I64, self.base.pc_next);
                emit_mov(ir, g, Type::I64, self.pc, pc_const);
                emit_exit_tb(ir, g, 3);
                self.base.is_jmp = DisasJumpType::NoReturn;
            }
        }
        self.base.pc_next = self.base.pc_next + self.cur_insn_len as u64;
        assert(crate::frontend::emit::emitted(o, *ir) =~= (if !decoded && !spec_is_fp_insn(old(self).opcode, old(self).cur_insn_len) {
            seq![
                (Opcode::Mov, Type::I64, seq![old(self).pc, ir.const_of(Type::I64, old(self).base.pc_next)->0]),
                (Opcode::ExitTb, Type::I64, seq![spec_carg(3u64 as u32)]),
            ]
        } else {
            seq![]
        }));
    }

    /// End the block: when the last instruction did not already leave it,
    /// set the guest PC to the next instruction and leave with exit value 0.
    pub fn tb_stop(&mut self, ir: &mut Context)
        requires
            room(*old(ir), 4),
        ensures
            *final(self) == *old(self),
            builds(
                *old(ir),
                *final(ir),
                if old(self).base.is_jmp == DisasJumpType::NoReturn {
                    seq![]
                } else {
                    seq![
                        (Opcode::Mov, Type::I64, seq![old(self).pc, final(ir).const_of(Type::I64, old(self).base.pc_next)->0]),
                        (Opcode::ExitTb, Type::I64, seq![spec_carg(0u64 as u32)]),
                    ]
                },
            ),
            old(self).base.is_jmp != DisasJumpType::NoReturn ==> final(ir).const_of(Type::I64, old(self).base.pc_next) is Some,
            final(ir).labels_view().len() == old(ir).labels_view().len(),
    {
        let g = Ghost(*ir);
        let ghost o = *ir;
        proof {
            lemma_begin(*ir);
        }
        match self.base.is_jmp {
            DisasJumpType::NoReturn => {},
            DisasJumpType::Next | DisasJumpType::TooMany => {
                let pc_const = constant(ir, g, Type::I64, self.base.pc_next);
                emit_mov(ir, g, Type::I64, self.pc, pc_const);
                emit_exit_tb(ir, g, 0);
            },
        }
        assert(crate::frontend::emit::emitted(o, *ir) =~= (if old(self).base.is_jmp == DisasJumpType::NoReturn {
            seq![]
        } else {
            seq![
                (Opcode::Mov, Type::I64, seq![old(self).pc, ir.const_of(Type::I64, old(self).base.pc_next)->0]),
                (Opcode::ExitTb, Type::I64, seq![spec_carg(0u64 as u32)]),
            ]
        }));
    }
}

} // verus!
