use vstd::prelude::*;

use crate::context::Context;
use crate::op::{LifeData, Op, OpIdx};
use crate::opcode::Opcode;
use crate::temp::{TempIdx, TempKind};
use crate::types::{Cond, RegSet, TempVal, Type};

verus! {

/// A constant argument: the raw value, carried in a `TempIdx` slot.
pub open spec fn spec_carg(val: u32) -> TempIdx {
    TempIdx(val)
}

fn carg(val: u32) -> (r: TempIdx)
    ensures
        r == spec_carg(val),
{
    TempIdx(val)
}

/// `op` is the op at position `idx` with opcode `opc`, type `ty` and exactly
/// the arguments `args`, with no liveness data and no register hints.
pub open spec fn op_is(op: Op, idx: nat, opc: Opcode, ty: Type, args: Seq<TempIdx>) -> bool {
    &&& op.idx.0 == idx
    &&& op.opc == opc
    &&& op.op_type == ty
    &&& op.param1 == 0
    &&& op.param2 == 0
    &&& op.life == LifeData(0)
    &&& op.output_pref@ == seq![RegSet(0), RegSet(0)]
    &&& op.nargs == args.len()
    &&& op.args@.subrange(0, args.len() as int) == args
    &&& forall|i: int| args.len() <= i < 10 ==> #[trigger] op.args@[i] == TempIdx(0)
}

impl Context {
    /// `self` is `old` with one op appended: opcode `opc`, type `ty`, arguments `args`.
    pub open spec fn appended(&self, old: &Context, opc: Opcode, ty: Type, args: Seq<TempIdx>) -> bool {
        &&& self.wf()
        &&& self.ops_view().len() == old.ops_view().len() + 1
        &&& self.ops_view().subrange(0, old.ops_view().len() as int) == old.ops_view()
        &&& op_is(self.ops_view().last(), old.ops_view().len(), opc, ty, args)
        &&& self.same_but_ops(old)
    }

    /// Whether one more op can be appended.
    pub open spec fn can_emit(&self) -> bool {
        self.wf() && self.ops_view().len() + 1 < u32::MAX
    }

    fn emit_args(&mut self, opc: Opcode, ty: Type, args: &[TempIdx]) -> (r: OpIdx)
        requires
            old(self).can_emit(),
            args@.len() <= 10,
        ensures
            final(self).appended(old(self), opc, ty, args@),
            r.0 == old(self).ops_view().len(),
    {
        let idx = self.next_op_idx();
        let op = Op::with_args(idx, opc, ty, args);
        assert(op.args@.subrange(0, args@.len() as int) =~= args@);
        self.emit_op(op);
        assert(self.ops_view().subrange(0, old(self).ops_view().len() as int) =~= old(self).ops_view());
        idx
    }

    fn emit_binary(&mut self, opc: Opcode, ty: Type, dst: TempIdx, a: TempIdx, b: TempIdx) -> (r: TempIdx)
        requires
            old(self).can_emit(),
        ensures
            final(self).appended(old(self), opc, ty, seq![dst, a, b]),
            r == dst,
    {
        let args = [dst, a, b];
        assert(args@ =~= seq![dst, a, b]);
        self.emit_args(opc, ty, &args);
        dst
    }

    fn emit_unary(&mut self, opc: Opcode, ty: Type, dst: TempIdx, src: TempIdx) -> (r: TempIdx)
        requires
            old(self).can_emit(),
        ensures
            final(self).appended(old(self), opc, ty, seq![dst, src]),
            r == dst,
    {
        let args = [dst, src];
        assert(args@ =~= seq![dst, src]);
        self.emit_args(opc, ty, &args);
        dst
    }

    pub fn gen_add(&mut self, ty: Type, d: TempIdx, a: TempIdx, b: TempIdx) -> (r: TempIdx)
        requires
            old(self).can_emit(),
        ensures
            final(self).appended(old(self), Opcode::Add, ty, seq![d, a, b]),
            r == d,
    {
        self.emit_binary(Opcode::Add, ty, d, a, b)
    }

    pub fn gen_sub(&mut self, ty: Type, d: TempIdx, a: TempIdx, b: TempIdx) -> (r: TempIdx)
        requires
            old(self).can_emit(),
        ensures
            final(self).appended(old(self), Opcode::Sub, ty, seq![d, a, b]),
            r == d,
    {
        self.emit_binary(Opcode::Sub, ty, d, a, b)
    }

    pub fn gen_mul(&mut self, ty: Type, d: TempIdx, a: TempIdx, b: TempIdx) -> (r: TempIdx)
        requires
            old(self).can_emit(),
        ensures
            final(self).appended(old(self), Opcode::Mul, ty, seq![d, a, b]),
            r == d,
    {
        self.emit_binary(Opcode::Mul, ty, d, a, b)
    }

    pub fn gen_and(&mut self, ty: Type, d: TempIdx, a: TempIdx, b: TempIdx) -> (r: TempIdx)
        requires
            old(self).can_emit(),
        ensures
            final(self).appended(old(self), Opcode::And, ty, seq![d, a, b]),
            r == d,
    {
        self.emit_binary(Opcode::And, ty, d, a, b)
    }

    pub fn gen_or(&mut self, ty: Type, d: TempIdx, a: TempIdx, b: TempIdx) -> (r: TempIdx)
        requires
            old(self).can_emit(),
        ensures
            final(self).appended(old(self), Opcode::Or, ty, seq![d, a, b]),
            r == d,
    {
        self.emit_binary(Opcode::Or, ty, d, a, b)
    }

    pub fn gen_xor(&mut self, ty: Type, d: TempIdx, a: TempIdx, b: TempIdx) -> (r: TempIdx)
        requires
            old(self).can_emit(),
        ensures
            final(self).appended(old(self), Opcode::Xor, ty, seq![d, a, b]),
            r == d,
    {
        self.emit_binary(Opcode::Xor, ty, d, a, b)
    }

    pub fn gen_shl(&mut self, ty: Type, d: TempIdx, a: TempIdx, b: TempIdx) -> (r: TempIdx)
        requires
            old(self).can_emit(),
        ensures
            final(self).appended(old(self), Opcode::Shl, ty, seq![d, a, b]),
            r == d,
    {
        self.emit_binary(Opcode::Shl, ty, d, a, b)
    }

    pub fn gen_shr(&mut self, ty: Type, d: TempIdx, a: TempIdx, b: TempIdx) -> (r: TempIdx)
        requires
            old(self).can_emit(),
        ensures
            final(self).appended(old(self), Opcode::Shr, ty, seq![d, a, b]),
            r == d,
    {
        self.emit_binary(Opcode::Shr, ty, d, a, b)
    }

    pub fn gen_sar(&mut self, ty: Type, d: TempIdx, a: TempIdx, b: TempIdx) -> (r: TempIdx)
        requires
            old(self).can_emit(),
        ensures
            final(self).appended(old(self), Opcode::Sar, ty, seq![d, a, b]),
            r == d,
    {
        self.emit_binary(Opcode::Sar, ty, d, a, b)
    }

    pub fn gen_rotl(&mut self, ty: Type, d: TempIdx, a: TempIdx, b: TempIdx) -> (r: TempIdx)
        requires
            old(self).can_emit(),
        ensures
            final(self).appended(old(self), Opcode::RotL, ty, seq![d, a, b]),
            r == d,
    {
        self.emit_binary(Opcode::RotL, ty, d, a, b)
    }

    pub fn gen_rotr(&mut self, ty: Type, d: TempIdx, a: TempIdx, b: TempIdx) -> (r: TempIdx)
        requires
            old(self).can_emit(),
        ensures
            final(self).appended(old(self), Opcode::RotR, ty, seq![d, a, b]),
            r == d,
    {
        self.emit_binary(Opcode::RotR, ty, d, a, b)
    }

    pub fn gen_andc(&mut self, ty: Type, d: TempIdx, a: TempIdx, b: TempIdx) -> (r: TempIdx)
        requires
            old(self).can_emit(),
        ensures
            final(self).appended(old(self), Opcode::AndC, ty, seq![d, a, b]),
            r == d,
    {
        self.emit_binary(Opcode::AndC, ty, d, a, b)
    }

    pub fn gen_orc(&mut self, ty: Type, d: TempIdx, a: TempIdx, b: TempIdx) -> (r: TempIdx)
        requires
            old(self).can_emit(),
        ensures
            final(self).appended(old(self), Opcode::OrC, ty, seq![d, a, b]),
            r == d,
    {
        self.emit_binary(Opcode::OrC, ty, d, a, b)
    }

    pub fn gen_eqv(&mut self, ty: Type, d: TempIdx, a: TempIdx, b: TempIdx) -> (r: TempIdx)
        requires
            old(self).can_emit(),
        ensures
            final(self).appended(old(self), Opcode::Eqv, ty, seq![d, a, b]),
            r == d,
    {
        self.emit_binary(Opcode::Eqv, ty, d, a, b)
    }

    pub fn gen_nand(&mut self, ty: Type, d: TempIdx, a: TempIdx, b: TempIdx) -> (r: TempIdx)
        requires
            old(self).can_emit(),
        ensures
            final(self).appended(old(self), Opcode::Nand, ty, seq![d, a, b]),
            r == d,
    {
        self.emit_binary(Opcode::Nand, ty, d, a, b)
    }

    pub fn gen_nor(&mut self, ty: Type, d: TempIdx, a: TempIdx, b: TempIdx) -> (r: TempIdx)
        requires
            old(self).can_emit(),
        ensures
            final(self).appended(old(self), Opcode::Nor, ty, seq![d, a, b]),
            r == d,
    {
        self.emit_binary(Opcode::Nor, ty, d, a, b)
    }

    pub fn gen_divs(&mut self, ty: Type, d: TempIdx, a: TempIdx, b: TempIdx) -> (r: TempIdx)
        requires
            old(self).can_emit(),
        ensures
            final(self).appended(old(self), Opcode::DivS, ty, seq![d, a, b]),
            r == d,
    {
        self.emit_binary(Opcode::DivS, ty, d, a, b)
    }

    pub fn gen_divu(&mut self, ty: Type, d: TempIdx, a: TempIdx, b: TempIdx) -> (r: TempIdx)
        requires
            old(self).can_emit(),
        ensures
            final(self).appended(old(self), Opcode::DivU, ty, seq![d, a, b]),
            r == d,
    {
        self.emit_binary(Opcode::DivU, ty, d, a, b)
    }

    pub fn gen_rems(&mut self, ty: Type, d: TempIdx, a: TempIdx, b: TempIdx) -> (r: TempIdx)
        requires
            old(self).can_emit(),
        ensures
            final(self).appended(old(self), Opcode::RemS, ty, seq![d, a, b]),
            r == d,
    {
        self.emit_binary(Opcode::RemS, ty, d, a, b)
    }

    pub fn gen_remu(&mut self, ty: Type, d: TempIdx, a: TempIdx, b: TempIdx) -> (r: TempIdx)
        requires
            old(self).can_emit(),
        ensures
            final(self).appended(old(self), Opcode::RemU, ty, seq![d, a, b]),
            r == d,
    {
        self.emit_binary(Opcode::RemU, ty, d, a, b)
    }

    pub fn gen_divs2(&mut self, ty: Type, dl: TempIdx, dh: TempIdx, al: TempIdx, ah: TempIdx, b: TempIdx)
        requires
            old(self).can_emit(),
        ensures
            final(self).appended(old(self), Opcode::DivS2, ty, seq![dl, dh, al, ah, b]),
    {
        let args = [dl, dh, al, ah, b];
        assert(args@ =~= seq![dl, dh, al, ah, b]);
        self.emit_args(Opcode::DivS2, ty, &args);
    }

    pub fn gen_divu2(&mut self, ty: Type, dl: TempIdx, dh: TempIdx, al: TempIdx, ah: TempIdx, b: TempIdx)
        requires
            old(self).can_emit(),
        ensures
            final(self).appended(old(self), Opcode::DivU2, ty, seq![dl, dh, al, ah, b]),
    {
        let args = [dl, dh, al, ah, b];
        assert(args@ =~= seq![dl, dh, al, ah, b]);
        self.emit_args(Opcode::DivU2, ty, &args);
    }

    pub fn gen_muls2(&mut self, ty: Type, dl: TempIdx, dh: TempIdx, a: TempIdx, b: TempIdx)
        requires
            old(self).can_emit(),
        ensures
            final(self).appended(old(self), Opcode::MulS2, ty, seq![dl, dh, a, b]),
    {
        let args = [dl, dh, a, b];
        assert(args@ =~= seq![dl, dh, a, b]);
        self.emit_args(Opcode::MulS2, ty, &args);
    }

    pub fn gen_mulu2(&mut self, ty: Type, dl: TempIdx, dh: TempIdx, a: TempIdx, b: TempIdx)
        requires
            old(self).can_emit(),
        ensures
            final(self).appended(old(self), Opcode::MulU2, ty, seq![dl, dh, a, b]),
    {
        let args = [dl, dh, a, b];
        assert(args@ =~= seq![dl, dh, a, b]);
        self.emit_args(Opcode::MulU2, ty, &args);
    }

    pub fn gen_mulsh(&mut self, ty: Type, d: TempIdx, a: TempIdx, b: TempIdx) -> (r: TempIdx)
        requires
            old(self).can_emit(),
        ensures
            final(self).appended(old(self), Opcode::MulSH, ty, seq![d, a, b]),
            r == d,
    {
        self.emit_binary(Opcode::MulSH, ty, d, a, b)
    }

    pub fn gen_muluh(&mut self, ty: Type, d: TempIdx, a: TempIdx, b: TempIdx) -> (r: TempIdx)
        requires
            old(self).can_emit(),
        ensures
            final(self).appended(old(self), Opcode::MulUH, ty, seq![d, a, b]),
            r == d,
    {
        self.emit_binary(Opcode::MulUH, ty, d, a, b)
    }

    pub fn gen_addco(&mut self, ty: Type, d: TempIdx, a: TempIdx, b: TempIdx) -> (r: TempIdx)
        requires
            old(self).can_emit(),
        ensures
            final(self).appended(old(self), Opcode::AddCO, ty, seq![d, a, b]),
            r == d,
    {
        self.emit_binary(Opcode::AddCO, ty, d, a, b)
    }

    pub fn gen_addci(&mut self, ty: Type, d: TempIdx, a: TempIdx, b: TempIdx) -> (r: TempIdx)
        requires
            old(self).can_emit(),
        ensures
            final(self).appended(old(self), Opcode::AddCI, ty, seq![d, a, b]),
            r == d,
    {
        self.emit_binary(Opcode::AddCI, ty, d, a, b)
    }

    pub fn gen_addcio(&mut self, ty: Type, d: TempIdx, a: TempIdx, b: TempIdx) -> (r: TempIdx)
        requires
            old(self).can_emit(),
        ensures
            final(self).appended(old(self), Opcode::AddCIO, ty, seq![d, a, b]),
            r == d,
    {
        self.emit_binary(Opcode::AddCIO, ty, d, a, b)
    }

    pub fn gen_addc1o(&mut self, ty: Type, d: TempIdx, a: TempIdx, b: TempIdx) -> (r: TempIdx)
        requires
            old(self).can_emit(),
        ensures
            final(self).appended(old(self), Opcode::AddC1O, ty, seq![d, a, b]),
            r == d,
    {
        self.emit_binary(Opcode::AddC1O, ty, d, a, b)
    }

    pub fn gen_subbo(&mut self, ty: Type, d: TempIdx, a: TempIdx, b: TempIdx) -> (r: TempIdx)
        requires
            old(self).can_emit(),
        ensures
            final(self).appended(old(self), Opcode::SubBO, ty, seq![d, a, b]),
            r == d,
    {
        self.emit_binary(Opcode::SubBO, ty, d, a, b)
    }

    pub fn gen_subbi(&mut self, ty: Type, d: TempIdx, a: TempIdx, b: TempIdx) -> (r: TempIdx)
        requires
            old(self).can_emit(),
        ensures
            final(self).appended(old(self), Opcode::SubBI, ty, seq![d, a, b]),
            r == d,
    {
        self.emit_binary(Opcode::SubBI, ty, d, a, b)
    }

    pub fn gen_subbio(&mut self, ty: Type, d: TempIdx, a: TempIdx, b: TempIdx) -> (r: TempIdx)
        requires
            old(self).can_emit(),
        ensures
            final(self).appended(old(self), Opcode::SubBIO, ty, seq![d, a, b]),
            r == d,
    {
        self.emit_binary(Opcode::SubBIO, ty, d, a, b)
    }

    pub fn gen_subb1o(&mut self, ty: Type, d: TempIdx, a: TempIdx, b: TempIdx) -> (r: TempIdx)
        requires
            old(self).can_emit(),
        ensures
            final(self).appended(old(self), Opcode::SubB1O, ty, seq![d, a, b]),
            r == d,
    {
        self.emit_binary(Opcode::SubB1O, ty, d, a, b)
    }

    pub fn gen_extract(&mut self, ty: Type, d: TempIdx, src: TempIdx, ofs: u32, len: u32) -> (r: TempIdx)
        requires
            old(self).can_emit(),
        ensures
            final(self).appended(old(self), Opcode::Extract, ty, seq![d, src, spec_carg(ofs), spec_carg(len)]),
            r == d,
    {
        let args = [d, src, carg(ofs), carg(len)];
        assert(args@ =~= seq![d, src, spec_carg(ofs), spec_carg(len)]);
        self.emit_args(Opcode::Extract, ty, &args);
        d
    }

    pub fn gen_sextract(&mut self, ty: Type, d: TempIdx, src: TempIdx, ofs: u32, len: u32) -> (r: TempIdx)
        requires
            old(self).can_emit(),
        ensures
            final(self).appended(old(self), Opcode::SExtract, ty, seq![d, src, spec_carg(ofs), spec_carg(len)]),
            r == d,
    {
        let args = [d, src, carg(ofs), carg(len)];
        assert(args@ =~= seq![d, src, spec_carg(ofs), spec_carg(len)]);
        self.emit_args(Opcode::SExtract, ty, &args);
        d
    }

    pub fn gen_deposit(&mut self, ty: Type, d: TempIdx, a: TempIdx, b: TempIdx, ofs: u32, len: u32) -> (r: TempIdx)
        requires
            old(self).can_emit(),
        ensures
            final(self).appended(old(self), Opcode::Deposit, ty, seq![d, a, b, spec_carg(ofs), spec_carg(len)]),
            r == d,
    {
        let args = [d, a, b, carg(ofs), carg(len)];
        assert(args@ =~= seq![d, a, b, spec_carg(ofs), spec_carg(len)]);
        self.emit_args(Opcode::Deposit, ty, &args);
        d
    }

    pub fn gen_extract2(&mut self, ty: Type, d: TempIdx, al: TempIdx, ah: TempIdx, ofs: u32) -> (r: TempIdx)
        requires
            old(self).can_emit(),
        ensures
            final(self).appended(old(self), Opcode::Extract2, ty, seq![d, al, ah, spec_carg(ofs)]),
            r == d,
    {
        let args = [d, al, ah, carg(ofs)];
        assert(args@ =~= seq![d, al, ah, spec_carg(ofs)]);
        self.emit_args(Opcode::Extract2, ty, &args);
        d
    }

    pub fn gen_bswap16(&mut self, ty: Type, d: TempIdx, src: TempIdx, flags: u32) -> (r: TempIdx)
        requires
            old(self).can_emit(),
        ensures
            final(self).appended(old(self), Opcode::Bswap16, ty, seq![d, src, spec_carg(flags)]),
            r == d,
    {
        let args = [d, src, carg(flags)];
        assert(args@ =~= seq![d, src, spec_carg(flags)]);
        self.emit_args(Opcode::Bswap16, ty, &args);
        d
    }

    pub fn gen_bswap32(&mut self, ty: Type, d: TempIdx, src: TempIdx, flags: u32) -> (r: TempIdx)
        requires
            old(self).can_emit(),
        ensures
            final(self).appended(old(self), Opcode::Bswap32, ty, seq![d, src, spec_carg(flags)]),
            r == d,
    {
        let args = [d, src, carg(flags)];
        assert(args@ =~= seq![d, src, spec_carg(flags)]);
        self.emit_args(Opcode::Bswap32, ty, &args);
        d
    }

    pub fn gen_bswap64(&mut self, ty: Type, d: TempIdx, src: TempIdx, flags: u32) -> (r: TempIdx)
        requires
            old(self).can_emit(),
        ensures
            final(self).appended(old(self), Opcode::Bswap64, ty, seq![d, src, spec_carg(flags)]),
            r == d,
    {
        let args = [d, src, carg(flags)];
        assert(args@ =~= seq![d, src, spec_carg(flags)]);
        self.emit_args(Opcode::Bswap64, ty, &args);
        d
    }

    pub fn gen_clz(&mut self, ty: Type, d: TempIdx, a: TempIdx, b: TempIdx) -> (r: TempIdx)
        requires
            old(self).can_emit(),
        ensures
            final(self).appended(old(self), Opcode::Clz, ty, seq![d, a, b]),
            r == d,
    {
        self.emit_binary(Opcode::Clz, ty, d, a, b)
    }

    pub fn gen_ctz(&mut self, ty: Type, d: TempIdx, a: TempIdx, b: TempIdx) -> (r: TempIdx)
        requires
            old(self).can_emit(),
        ensures
            final(self).appended(old(self), Opcode::Ctz, ty, seq![d, a, b]),
            r == d,
    {
        self.emit_binary(Opcode::Ctz, ty, d, a, b)
    }

    pub fn gen_ctpop(&mut self, ty: Type, d: TempIdx, src: TempIdx) -> (r: TempIdx)
        requires
            old(self).can_emit(),
        ensures
            final(self).appended(old(self), Opcode::CtPop, ty, seq![d, src]),
            r == d,
    {
        self.emit_unary(Opcode::CtPop, ty, d, src)
    }

    /// BrCond2I32: 64-bit conditional branch on 32-bit host.
    /// 0 oargs, 4 iargs (al, ah, bl, bh), 2 cargs (cond, label)
    pub fn gen_brcond2_i32(&mut self, al: TempIdx, ah: TempIdx, bl: TempIdx, bh: TempIdx, cond: Cond, label_id: u32)
        requires
            old(self).can_emit(),
        ensures
            final(self).appended(old(self), Opcode::BrCond2I32, Type::I32, seq![al, ah, bl, bh, spec_carg(cond.spec_code()), spec_carg(label_id)]),
    {
        let args = [al, ah, bl, bh, carg(cond.to_u32()), carg(label_id)];
        assert(args@ =~= seq![al, ah, bl, bh, spec_carg(cond.spec_code()), spec_carg(label_id)]);
        self.emit_args(Opcode::BrCond2I32, Type::I32, &args);
    }

    /// SetCond2I32: 64-bit setcond on 32-bit host.
    /// 1 oarg, 4 iargs (al, ah, bl, bh), 1 carg (cond)
    pub fn gen_setcond2_i32(&mut self, d: TempIdx, al: TempIdx, ah: TempIdx, bl: TempIdx, bh: TempIdx, cond: Cond) -> (r: TempIdx)
        requires
            old(self).can_emit(),
        ensures
            final(self).appended(old(self), Opcode::SetCond2I32, Type::I32, seq![d, al, ah, bl, bh, spec_carg(cond.spec_code())]),
            r == d,
    {
        let args = [d, al, ah, bl, bh, carg(cond.to_u32())];
        assert(args@ =~= seq![d, al, ah, bl, bh, spec_carg(cond.spec_code())]);
        self.emit_args(Opcode::SetCond2I32, Type::I32, &args);
        d
    }

    pub fn gen_negsetcond(&mut self, ty: Type, d: TempIdx, a: TempIdx, b: TempIdx, cond: Cond) -> (r: TempIdx)
        requires
            old(self).can_emit(),
        ensures
            final(self).appended(old(self), Opcode::NegSetCond, ty, seq![d, a, b, spec_carg(cond.spec_code())]),
            r == d,
    {
        let args = [d, a, b, carg(cond.to_u32())];
        assert(args@ =~= seq![d, a, b, spec_carg(cond.spec_code())]);
        self.emit_args(Opcode::NegSetCond, ty, &args);
        d
    }

    pub fn gen_movcond(&mut self, ty: Type, d: TempIdx, c1: TempIdx, c2: TempIdx, v1: TempIdx, v2: TempIdx, cond: Cond) -> (r: TempIdx)
        requires
            old(self).can_emit(),
        ensures
            final(self).appended(old(self), Opcode::MovCond, ty, seq![d, c1, c2, v1, v2, spec_carg(cond.spec_code())]),
            r == d,
    {
        let args = [d, c1, c2, v1, v2, carg(cond.to_u32())];
        assert(args@ =~= seq![d, c1, c2, v1, v2, spec_carg(cond.spec_code())]);
        self.emit_args(Opcode::MovCond, ty, &args);
        d
    }

    pub fn gen_neg(&mut self, ty: Type, d: TempIdx, s: TempIdx) -> (r: TempIdx)
        requires
            old(self).can_emit(),
        ensures
            final(self).appended(old(self), Opcode::Neg, ty, seq![d, s]),
            r == d,
    {
        self.emit_unary(Opcode::Neg, ty, d, s)
    }

    pub fn gen_not(&mut self, ty: Type, d: TempIdx, s: TempIdx) -> (r: TempIdx)
        requires
            old(self).can_emit(),
        ensures
            final(self).appended(old(self), Opcode::Not, ty, seq![d, s]),
            r == d,
    {
        self.emit_unary(Opcode::Not, ty, d, s)
    }

    pub fn gen_mov(&mut self, ty: Type, d: TempIdx, s: TempIdx) -> (r: TempIdx)
        requires
            old(self).can_emit(),
        ensures
            final(self).appended(old(self), Opcode::Mov, ty, seq![d, s]),
            r == d,
    {
        self.emit_unary(Opcode::Mov, ty, d, s)
    }

    /// Sign-extend i32 → i64.
    pub fn gen_ext_i32_i64(&mut self, d: TempIdx, s: TempIdx) -> (r: TempIdx)
        requires
            old(self).can_emit(),
        ensures
            final(self).appended(old(self), Opcode::ExtI32I64, Type::I64, seq![d, s]),
            r == d,
    {
        self.emit_unary(Opcode::ExtI32I64, Type::I64, d, s)
    }

    /// Zero-extend i32 → i64.
    pub fn gen_ext_u32_i64(&mut self, d: TempIdx, s: TempIdx) -> (r: TempIdx)
        requires
            old(self).can_emit(),
        ensures
            final(self).appended(old(self), Opcode::ExtUI32I64, Type::I64, seq![d, s]),
            r == d,
    {
        self.emit_unary(Opcode::ExtUI32I64, Type::I64, d, s)
    }

    /// Truncate i64 → i32 (low 32 bits).
    pub fn gen_extrl_i64_i32(&mut self, d: TempIdx, s: TempIdx) -> (r: TempIdx)
        requires
            old(self).can_emit(),
        ensures
            final(self).appended(old(self), Opcode::ExtrlI64I32, Type::I32, seq![d, s]),
            r == d,
    {
        self.emit_unary(Opcode::ExtrlI64I32, Type::I32, d, s)
    }

    /// Extract i64 → i32 (high 32 bits).
    pub fn gen_extrh_i64_i32(&mut self, d: TempIdx, s: TempIdx) -> (r: TempIdx)
        requires
            old(self).can_emit(),
        ensures
            final(self).appended(old(self), Opcode::ExtrhI64I32, Type::I32, seq![d, s]),
            r == d,
    {
        self.emit_unary(Opcode::ExtrhI64I32, Type::I32, d, s)
    }

    pub fn gen_setcond(&mut self, ty: Type, d: TempIdx, a: TempIdx, b: TempIdx, cond: Cond) -> (r: TempIdx)
        requires
            old(self).can_emit(),
        ensures
            final(self).appended(old(self), Opcode::SetCond, ty, seq![d, a, b, spec_carg(cond.spec_code())]),
            r == d,
    {
        let args = [d, a, b, carg(cond.to_u32())];
        assert(args@ =~= seq![d, a, b, spec_carg(cond.spec_code())]);
        self.emit_args(Opcode::SetCond, ty, &args);
        d
    }

    /// Load: dst = *(base + offset)
    /// Ld: 1 oarg, 1 iarg, 1 carg (offset)
    pub fn gen_ld(&mut self, ty: Type, dst: TempIdx, base: TempIdx, offset: i64) -> (r: TempIdx)
        requires
            old(self).can_emit(),
        ensures
            final(self).appended(old(self), Opcode::Ld, ty, seq![dst, base, spec_carg(offset as u32)]),
            r == dst,
    {
        let args = [dst, base, carg(offset as u32)];
        assert(args@ =~= seq![dst, base, spec_carg(offset as u32)]);
        self.emit_args(Opcode::Ld, ty, &args);
        dst
    }

    /// Store: *(base + offset) = src
    /// St: 0 oargs, 2 iargs, 1 carg (offset)
    pub fn gen_st(&mut self, ty: Type, src: TempIdx, base: TempIdx, offset: i64)
        requires
            old(self).can_emit(),
        ensures
            final(self).appended(old(self), Opcode::St, ty, seq![src, base, spec_carg(offset as u32)]),
    {
        let args = [src, base, carg(offset as u32)];
        assert(args@ =~= seq![src, base, spec_carg(offset as u32)]);
        self.emit_args(Opcode::St, ty, &args);
    }

    /// Load unsigned byte: dst = *(u8*)(base + offset)
    pub fn gen_ld8u(&mut self, ty: Type, dst: TempIdx, base: TempIdx, offset: i64) -> (r: TempIdx)
        requires
            old(self).can_emit(),
        ensures
            final(self).appended(old(self), Opcode::Ld8U, ty, seq![dst, base, spec_carg(offset as u32)]),
            r == dst,
    {
        let args = [dst, base, carg(offset as u32)];
        assert(args@ =~= seq![dst, base, spec_carg(offset as u32)]);
        self.emit_args(Opcode::Ld8U, ty, &args);
        dst
    }

    /// Load signed byte: dst = *(i8*)(base + offset)
    pub fn gen_ld8s(&mut self, ty: Type, dst: TempIdx, base: TempIdx, offset: i64) -> (r: TempIdx)
        requires
            old(self).can_emit(),
        ensures
            final(self).appended(old(self), Opcode::Ld8S, ty, seq![dst, base, spec_carg(offset as u32)]),
            r == dst,
    {
        let args = [dst, base, carg(offset as u32)];
        assert(args@ =~= seq![dst, base, spec_carg(offset as u32)]);
        self.emit_args(Opcode::Ld8S, ty, &args);
        dst
    }

    /// Load unsigned halfword: dst = *(u16*)(base + offset)
    pub fn gen_ld16u(&mut self, ty: Type, dst: TempIdx, base: TempIdx, offset: i64) -> (r: TempIdx)
        requires
            old(self).can_emit(),
        ensures
            final(self).appended(old(self), Opcode::Ld16U, ty, seq![dst, base, spec_carg(offset as u32)]),
            r == dst,
    {
        let args = [dst, base, carg(offset as u32)];
        assert(args@ =~= seq![dst, base, spec_carg(offset as u32)]);
        self.emit_args(Opcode::Ld16U, ty, &args);
        dst
    }

    /// Load signed halfword: dst = *(i16*)(base + offset)
    pub fn gen_ld16s(&mut self, ty: Type, dst: TempIdx, base: TempIdx, offset: i64) -> (r: TempIdx)
        requires
            old(self).can_emit(),
        ensures
            final(self).appended(old(self), Opcode::Ld16S, ty, seq![dst, base, spec_carg(offset as u32)]),
            r == dst,
    {
        let args = [dst, base, carg(offset as u32)];
        assert(args@ =~= seq![dst, base, spec_carg(offset as u32)]);
        self.emit_args(Opcode::Ld16S, ty, &args);
        dst
    }

    /// Load unsigned word: dst = *(u32*)(base + offset)
    pub fn gen_ld32u(&mut self, ty: Type, dst: TempIdx, base: TempIdx, offset: i64) -> (r: TempIdx)
        requires
            old(self).can_emit(),
        ensures
            final(self).appended(old(self), Opcode::Ld32U, ty, seq![dst, base, spec_carg(offset as u32)]),
            r == dst,
    {
        let args = [dst, base, carg(offset as u32)];
        assert(args@ =~= seq![dst, base, spec_carg(offset as u32)]);
        self.emit_args(Opcode::Ld32U, ty, &args);
        dst
    }

    /// Load signed word: dst = *(i32*)(base + offset)
    pub fn gen_ld32s(&mut self, ty: Type, dst: TempIdx, base: TempIdx, offset: i64) -> (r: TempIdx)
        requires
            old(self).can_emit(),
        ensures
            final(self).appended(old(self), Opcode::Ld32S, ty, seq![dst, base, spec_carg(offset as u32)]),
            r == dst,
    {
        let args = [dst, base, carg(offset as u32)];
        assert(args@ =~= seq![dst, base, spec_carg(offset as u32)]);
        self.emit_args(Opcode::Ld32S, ty, &args);
        dst
    }

    /// Store byte: *(u8*)(base + offset) = src
    pub fn gen_st8(&mut self, ty: Type, src: TempIdx, base: TempIdx, offset: i64)
        requires
            old(self).can_emit(),
        ensures
            final(self).appended(old(self), Opcode::St8, ty, seq![src, base, spec_carg(offset as u32)]),
    {
        let args = [src, base, carg(offset as u32)];
        assert(args@ =~= seq![src, base, spec_carg(offset as u32)]);
        self.emit_args(Opcode::St8, ty, &args);
    }

    /// Store halfword: *(u16*)(base + offset) = src
    pub fn gen_st16(&mut self, ty: Type, src: TempIdx, base: TempIdx, offset: i64)
        requires
            old(self).can_emit(),
        ensures
            final(self).appended(old(self), Opcode::St16, ty, seq![src, base, spec_carg(offset as u32)]),
    {
        let args = [src, base, carg(offset as u32)];
        assert(args@ =~= seq![src, base, spec_carg(offset as u32)]);
        self.emit_args(Opcode::St16, ty, &args);
    }

    /// Store word: *(u32*)(base + offset) = src
    pub fn gen_st32(&mut self, ty: Type, src: TempIdx, base: TempIdx, offset: i64)
        requires
            old(self).can_emit(),
        ensures
            final(self).appended(old(self), Opcode::St32, ty, seq![src, base, spec_carg(offset as u32)]),
    {
        let args = [src, base, carg(offset as u32)];
        assert(args@ =~= seq![src, base, spec_carg(offset as u32)]);
        self.emit_args(Opcode::St32, ty, &args);
    }

    /// Unconditional branch to label.
    /// Br: 0 oargs, 0 iargs, 1 carg (label_id)
    pub fn gen_br(&mut self, label_id: u32)
        requires
            old(self).can_emit(),
        ensures
            final(self).appended(old(self), Opcode::Br, Type::I64, seq![spec_carg(label_id)]),
    {
        let args = [carg(label_id)];
        assert(args@ =~= seq![spec_carg(label_id)]);
        self.emit_args(Opcode::Br, Type::I64, &args);
    }

    /// Conditional branch.
    /// BrCond: 0 oargs, 2 iargs, 2 cargs (cond, label_id)
    pub fn gen_brcond(&mut self, ty: Type, a: TempIdx, b: TempIdx, cond: Cond, label_id: u32)
        requires
            old(self).can_emit(),
        ensures
            final(self).appended(old(self), Opcode::BrCond, ty, seq![a, b, spec_carg(cond.spec_code()), spec_carg(label_id)]),
    {
        let args = [a, b, carg(cond.to_u32()), carg(label_id)];
        assert(args@ =~= seq![a, b, spec_carg(cond.spec_code()), spec_carg(label_id)]);
        self.emit_args(Opcode::BrCond, ty, &args);
    }

    /// Define label position.
    /// SetLabel: 0 oargs, 0 iargs, 1 carg (label_id)
    pub fn gen_set_label(&mut self, label_id: u32)
        requires
            old(self).can_emit(),
        ensures
            final(self).appended(old(self), Opcode::SetLabel, Type::I64, seq![spec_carg(label_id)]),
    {
        let args = [carg(label_id)];
        assert(args@ =~= seq![spec_carg(label_id)]);
        self.emit_args(Opcode::SetLabel, Type::I64, &args);
    }

    /// GotoTb: 0 oargs, 0 iargs, 1 carg (tb_idx)
    pub fn gen_goto_tb(&mut self, tb_idx: u32)
        requires
            old(self).can_emit(),
        ensures
            final(self).appended(old(self), Opcode::GotoTb, Type::I64, seq![spec_carg(tb_idx)]),
    {
        let args = [carg(tb_idx)];
        assert(args@ =~= seq![spec_carg(tb_idx)]);
        self.emit_args(Opcode::GotoTb, Type::I64, &args);
    }

    /// ExitTb: 0 oargs, 0 iargs, 1 carg (val)
    pub fn gen_exit_tb(&mut self, val: u64)
        requires
            old(self).can_emit(),
        ensures
            final(self).appended(old(self), Opcode::ExitTb, Type::I64, seq![spec_carg(val as u32)]),
    {
        let args = [carg(val as u32)];
        assert(args@ =~= seq![spec_carg(val as u32)]);
        self.emit_args(Opcode::ExitTb, Type::I64, &args);
    }

    /// InsnStart: 0 oargs, 0 iargs, 2 cargs (pc_lo, pc_hi)
    pub fn gen_insn_start(&mut self, pc: u64)
        requires
            old(self).can_emit(),
        ensures
            final(self).appended(old(self), Opcode::InsnStart, Type::I64, seq![spec_carg(pc as u32), spec_carg((pc >> 32) as u32)]),
    {
        let args = [carg(pc as u32), carg((pc >> 32) as u32)];
        assert(args@ =~= seq![spec_carg(pc as u32), spec_carg((pc >> 32) as u32)]);
        self.emit_args(Opcode::InsnStart, Type::I64, &args);
    }

    /// GotoPtr: indirect jump through register.
    pub fn gen_goto_ptr(&mut self, ptr: TempIdx)
        requires
            old(self).can_emit(),
        ensures
            final(self).appended(old(self), Opcode::GotoPtr, Type::I64, seq![ptr]),
    {
        let args = [ptr];
        assert(args@ =~= seq![ptr]);
        self.emit_args(Opcode::GotoPtr, Type::I64, &args);
    }

    /// Mb: memory barrier.
    pub fn gen_mb(&mut self, bar_type: u32)
        requires
            old(self).can_emit(),
        ensures
            final(self).appended(old(self), Opcode::Mb, Type::I64, seq![spec_carg(bar_type)]),
    {
        let args = [carg(bar_type)];
        assert(args@ =~= seq![spec_carg(bar_type)]);
        self.emit_args(Opcode::Mb, Type::I64, &args);
    }

    pub fn gen_discard(&mut self, ty: Type, t: TempIdx)
        requires
            old(self).can_emit(),
        ensures
            final(self).appended(old(self), Opcode::Discard, ty, seq![t]),
    {
        let args = [t];
        assert(args@ =~= seq![t]);
        self.emit_args(Opcode::Discard, ty, &args);
    }

    pub fn gen_qemu_ld(&mut self, ty: Type, dst: TempIdx, addr: TempIdx, memop: u32) -> (r: TempIdx)
        requires
            old(self).can_emit(),
        ensures
            final(self).appended(old(self), Opcode::QemuLd, ty, seq![dst, addr, spec_carg(memop)]),
            r == dst,
    {
        let args = [dst, addr, carg(memop)];
        assert(args@ =~= seq![dst, addr, spec_carg(memop)]);
        self.emit_args(Opcode::QemuLd, ty, &args);
        dst
    }

    pub fn gen_qemu_st(&mut self, ty: Type, val: TempIdx, addr: TempIdx, memop: u32)
        requires
            old(self).can_emit(),
        ensures
            final(self).appended(old(self), Opcode::QemuSt, ty, seq![val, addr, spec_carg(memop)]),
    {
        let args = [val, addr, carg(memop)];
        assert(args@ =~= seq![val, addr, spec_carg(memop)]);
        self.emit_args(Opcode::QemuSt, ty, &args);
    }

    pub fn gen_qemu_ld2(&mut self, ty: Type, dl: TempIdx, dh: TempIdx, addr: TempIdx, memop: u32)
        requires
            old(self).can_emit(),
        ensures
            final(self).appended(old(self), Opcode::QemuLd2, ty, seq![dl, dh, addr, spec_carg(memop)]),
    {
        let args = [dl, dh, addr, carg(memop)];
        assert(args@ =~= seq![dl, dh, addr, spec_carg(memop)]);
        self.emit_args(Opcode::QemuLd2, ty, &args);
    }

    pub fn gen_qemu_st2(&mut self, ty: Type, vl: TempIdx, vh: TempIdx, addr: TempIdx, memop: u32)
        requires
            old(self).can_emit(),
        ensures
            final(self).appended(old(self), Opcode::QemuSt2, ty, seq![vl, vh, addr, spec_carg(memop)]),
    {
        let args = [vl, vh, addr, carg(memop)];
        assert(args@ =~= seq![vl, vh, addr, spec_carg(memop)]);
        self.emit_args(Opcode::QemuSt2, ty, &args);
    }

    pub fn gen_dup_vec(&mut self, ty: Type, d: TempIdx, s: TempIdx) -> (r: TempIdx)
        requires
            old(self).can_emit(),
        ensures
            final(self).appended(old(self), Opcode::DupVec, ty, seq![d, s]),
            r == d,
    {
        self.emit_unary(Opcode::DupVec, ty, d, s)
    }

    pub fn gen_dup2_vec(&mut self, ty: Type, d: TempIdx, a: TempIdx, b: TempIdx) -> (r: TempIdx)
        requires
            old(self).can_emit(),
        ensures
            final(self).appended(old(self), Opcode::Dup2Vec, ty, seq![d, a, b]),
            r == d,
    {
        self.emit_binary(Opcode::Dup2Vec, ty, d, a, b)
    }

    pub fn gen_ld_vec(&mut self, ty: Type, dst: TempIdx, base: TempIdx, offset: i64) -> (r: TempIdx)
        requires
            old(self).can_emit(),
        ensures
            final(self).appended(old(self), Opcode::LdVec, ty, seq![dst, base, spec_carg(offset as u32)]),
            r == dst,
    {
        let args = [dst, base, carg(offset as u32)];
        assert(args@ =~= seq![dst, base, spec_carg(offset as u32)]);
        self.emit_args(Opcode::LdVec, ty, &args);
        dst
    }

    pub fn gen_st_vec(&mut self, ty: Type, src: TempIdx, base: TempIdx, offset: i64)
        requires
            old(self).can_emit(),
        ensures
            final(self).appended(old(self), Opcode::StVec, ty, seq![src, base, spec_carg(offset as u32)]),
    {
        let args = [src, base, carg(offset as u32)];
        assert(args@ =~= seq![src, base, spec_carg(offset as u32)]);
        self.emit_args(Opcode::StVec, ty, &args);
    }

    pub fn gen_dupm_vec(&mut self, ty: Type, dst: TempIdx, base: TempIdx, offset: i64) -> (r: TempIdx)
        requires
            old(self).can_emit(),
        ensures
            final(self).appended(old(self), Opcode::DupmVec, ty, seq![dst, base, spec_carg(offset as u32)]),
            r == dst,
    {
        let args = [dst, base, carg(offset as u32)];
        assert(args@ =~= seq![dst, base, spec_carg(offset as u32)]);
        self.emit_args(Opcode::DupmVec, ty, &args);
        dst
    }

    pub fn gen_add_vec(&mut self, ty: Type, d: TempIdx, a: TempIdx, b: TempIdx) -> (r: TempIdx)
        requires
            old(self).can_emit(),
        ensures
            final(self).appended(old(self), Opcode::AddVec, ty, seq![d, a, b]),
            r == d,
    {
        self.emit_binary(Opcode::AddVec, ty, d, a, b)
    }

    pub fn gen_sub_vec(&mut self, ty: Type, d: TempIdx, a: TempIdx, b: TempIdx) -> (r: TempIdx)
        requires
            old(self).can_emit(),
        ensures
            final(self).appended(old(self), Opcode::SubVec, ty, seq![d, a, b]),
            r == d,
    {
        self.emit_binary(Opcode::SubVec, ty, d, a, b)
    }

    pub fn gen_mul_vec(&mut self, ty: Type, d: TempIdx, a: TempIdx, b: TempIdx) -> (r: TempIdx)
        requires
            old(self).can_emit(),
        ensures
            final(self).appended(old(self), Opcode::MulVec, ty, seq![d, a, b]),
            r == d,
    {
        self.emit_binary(Opcode::MulVec, ty, d, a, b)
    }

    pub fn gen_neg_vec(&mut self, ty: Type, d: TempIdx, s: TempIdx) -> (r: TempIdx)
        requires
            old(self).can_emit(),
        ensures
            final(self).appended(old(self), Opcode::NegVec, ty, seq![d, s]),
            r == d,
    {
        self.emit_unary(Opcode::NegVec, ty, d, s)
    }

    pub fn gen_abs_vec(&mut self, ty: Type, d: TempIdx, s: TempIdx) -> (r: TempIdx)
        requires
            old(self).can_emit(),
        ensures
            final(self).appended(old(self), Opcode::AbsVec, ty, seq![d, s]),
            r == d,
    {
        self.emit_unary(Opcode::AbsVec, ty, d, s)
    }

    pub fn gen_ssadd_vec(&mut self, ty: Type, d: TempIdx, a: TempIdx, b: TempIdx) -> (r: TempIdx)
        requires
            old(self).can_emit(),
        ensures
            final(self).appended(old(self), Opcode::SsaddVec, ty, seq![d, a, b]),
            r == d,
    {
        self.emit_binary(Opcode::SsaddVec, ty, d, a, b)
    }

    pub fn gen_usadd_vec(&mut self, ty: Type, d: TempIdx, a: TempIdx, b: TempIdx) -> (r: TempIdx)
        requires
            old(self).can_emit(),
        ensures
            final(self).appended(old(self), Opcode::UsaddVec, ty, seq![d, a, b]),
            r == d,
    {
        self.emit_binary(Opcode::UsaddVec, ty, d, a, b)
    }

    pub fn gen_sssub_vec(&mut self, ty: Type, d: TempIdx, a: TempIdx, b: TempIdx) -> (r: TempIdx)
        requires
            old(self).can_emit(),
        ensures
            final(self).appended(old(self), Opcode::SssubVec, ty, seq![d, a, b]),
            r == d,
    {
        self.emit_binary(Opcode::SssubVec, ty, d, a, b)
    }

    pub fn gen_ussub_vec(&mut self, ty: Type, d: TempIdx, a: TempIdx, b: TempIdx) -> (r: TempIdx)
        requires
            old(self).can_emit(),
        ensures
            final(self).appended(old(self), Opcode::UssubVec, ty, seq![d, a, b]),
            r == d,
    {
        self.emit_binary(Opcode::UssubVec, ty, d, a, b)
    }

    pub fn gen_smin_vec(&mut self, ty: Type, d: TempIdx, a: TempIdx, b: TempIdx) -> (r: TempIdx)
        requires
            old(self).can_emit(),
        ensures
            final(self).appended(old(self), Opcode::SminVec, ty, seq![d, a, b]),
            r == d,
    {
        self.emit_binary(Opcode::SminVec, ty, d, a, b)
    }

    pub fn gen_umin_vec(&mut self, ty: Type, d: TempIdx, a: TempIdx, b: TempIdx) -> (r: TempIdx)
        requires
            old(self).can_emit(),
        ensures
            final(self).appended(old(self), Opcode::UminVec, ty, seq![d, a, b]),
            r == d,
    {
        self.emit_binary(Opcode::UminVec, ty, d, a, b)
    }

    pub fn gen_smax_vec(&mut self, ty: Type, d: TempIdx, a: TempIdx, b: TempIdx) -> (r: TempIdx)
        requires
            old(self).can_emit(),
        ensures
            final(self).appended(old(self), Opcode::SmaxVec, ty, seq![d, a, b]),
            r == d,
    {
        self.emit_binary(Opcode::SmaxVec, ty, d, a, b)
    }

    pub fn gen_umax_vec(&mut self, ty: Type, d: TempIdx, a: TempIdx, b: TempIdx) -> (r: TempIdx)
        requires
            old(self).can_emit(),
        ensures
            final(self).appended(old(self), Opcode::UmaxVec, ty, seq![d, a, b]),
            r == d,
    {
        self.emit_binary(Opcode::UmaxVec, ty, d, a, b)
    }

    pub fn gen_and_vec(&mut self, ty: Type, d: TempIdx, a: TempIdx, b: TempIdx) -> (r: TempIdx)
        requires
            old(self).can_emit(),
        ensures
            final(self).appended(old(self), Opcode::AndVec, ty, seq![d, a, b]),
            r == d,
    {
        self.emit_binary(Opcode::AndVec, ty, d, a, b)
    }

    pub fn gen_or_vec(&mut self, ty: Type, d: TempIdx, a: TempIdx, b: TempIdx) -> (r: TempIdx)
        requires
            old(self).can_emit(),
        ensures
            final(self).appended(old(self), Opcode::OrVec, ty, seq![d, a, b]),
            r == d,
    {
        self.emit_binary(Opcode::OrVec, ty, d, a, b)
    }

    pub fn gen_xor_vec(&mut self, ty: Type, d: TempIdx, a: TempIdx, b: TempIdx) -> (r: TempIdx)
        requires
            old(self).can_emit(),
        ensures
            final(self).appended(old(self), Opcode::XorVec, ty, seq![d, a, b]),
            r == d,
    {
        self.emit_binary(Opcode::XorVec, ty, d, a, b)
    }

    pub fn gen_andc_vec(&mut self, ty: Type, d: TempIdx, a: TempIdx, b: TempIdx) -> (r: TempIdx)
        requires
            old(self).can_emit(),
        ensures
            final(self).appended(old(self), Opcode::AndcVec, ty, seq![d, a, b]),
            r == d,
    {
        self.emit_binary(Opcode::AndcVec, ty, d, a, b)
    }

    pub fn gen_orc_vec(&mut self, ty: Type, d: TempIdx, a: TempIdx, b: TempIdx) -> (r: TempIdx)
        requires
            old(self).can_emit(),
        ensures
            final(self).appended(old(self), Opcode::OrcVec, ty, seq![d, a, b]),
            r == d,
    {
        self.emit_binary(Opcode::OrcVec, ty, d, a, b)
    }

    pub fn gen_nand_vec(&mut self, ty: Type, d: TempIdx, a: TempIdx, b: TempIdx) -> (r: TempIdx)
        requires
            old(self).can_emit(),
        ensures
            final(self).appended(old(self), Opcode::NandVec, ty, seq![d, a, b]),
            r == d,
    {
        self.emit_binary(Opcode::NandVec, ty, d, a, b)
    }

    pub fn gen_nor_vec(&mut self, ty: Type, d: TempIdx, a: TempIdx, b: TempIdx) -> (r: TempIdx)
        requires
            old(self).can_emit(),
        ensures
            final(self).appended(old(self), Opcode::NorVec, ty, seq![d, a, b]),
            r == d,
    {
        self.emit_binary(Opcode::NorVec, ty, d, a, b)
    }

    pub fn gen_eqv_vec(&mut self, ty: Type, d: TempIdx, a: TempIdx, b: TempIdx) -> (r: TempIdx)
        requires
            old(self).can_emit(),
        ensures
            final(self).appended(old(self), Opcode::EqvVec, ty, seq![d, a, b]),
            r == d,
    {
        self.emit_binary(Opcode::EqvVec, ty, d, a, b)
    }

    pub fn gen_not_vec(&mut self, ty: Type, d: TempIdx, s: TempIdx) -> (r: TempIdx)
        requires
            old(self).can_emit(),
        ensures
            final(self).appended(old(self), Opcode::NotVec, ty, seq![d, s]),
            r == d,
    {
        self.emit_unary(Opcode::NotVec, ty, d, s)
    }

    pub fn gen_shli_vec(&mut self, ty: Type, d: TempIdx, s: TempIdx, imm: u32) -> (r: TempIdx)
        requires
            old(self).can_emit(),
        ensures
            final(self).appended(old(self), Opcode::ShliVec, ty, seq![d, s, spec_carg(imm)]),
            r == d,
    {
        let args = [d, s, carg(imm)];
        assert(args@ =~= seq![d, s, spec_carg(imm)]);
        self.emit_args(Opcode::ShliVec, ty, &args);
        d
    }

    pub fn gen_shri_vec(&mut self, ty: Type, d: TempIdx, s: TempIdx, imm: u32) -> (r: TempIdx)
        requires
            old(self).can_emit(),
        ensures
            final(self).appended(old(self), Opcode::ShriVec, ty, seq![d, s, spec_carg(imm)]),
            r == d,
    {
        let args = [d, s, carg(imm)];
        assert(args@ =~= seq![d, s, spec_carg(imm)]);
        self.emit_args(Opcode::ShriVec, ty, &args);
        d
    }

    pub fn gen_sari_vec(&mut self, ty: Type, d: TempIdx, s: TempIdx, imm: u32) -> (r: TempIdx)
        requires
            old(self).can_emit(),
        ensures
            final(self).appended(old(self), Opcode::SariVec, ty, seq![d, s, spec_carg(imm)]),
            r == d,
    {
        let args = [d, s, carg(imm)];
        assert(args@ =~= seq![d, s, spec_carg(imm)]);
        self.emit_args(Opcode::SariVec, ty, &args);
        d
    }

    pub fn gen_rotli_vec(&mut self, ty: Type, d: TempIdx, s: TempIdx, imm: u32) -> (r: TempIdx)
        requires
            old(self).can_emit(),
        ensures
            final(self).appended(old(self), Opcode::RotliVec, ty, seq![d, s, spec_carg(imm)]),
            r == d,
    {
        let args = [d, s, carg(imm)];
        assert(args@ =~= seq![d, s, spec_carg(imm)]);
        self.emit_args(Opcode::RotliVec, ty, &args);
        d
    }

    pub fn gen_shls_vec(&mut self, ty: Type, d: TempIdx, a: TempIdx, b: TempIdx) -> (r: TempIdx)
        requires
            old(self).can_emit(),
        ensures
            final(self).appended(old(self), Opcode::ShlsVec, ty, seq![d, a, b]),
            r == d,
    {
        self.emit_binary(Opcode::ShlsVec, ty, d, a, b)
    }

    pub fn gen_shrs_vec(&mut self, ty: Type, d: TempIdx, a: TempIdx, b: TempIdx) -> (r: TempIdx)
        requires
            old(self).can_emit(),
        ensures
            final(self).appended(old(self), Opcode::ShrsVec, ty, seq![d, a, b]),
            r == d,
    {
        self.emit_binary(Opcode::ShrsVec, ty, d, a, b)
    }

    pub fn gen_sars_vec(&mut self, ty: Type, d: TempIdx, a: TempIdx, b: TempIdx) -> (r: TempIdx)
        requires
            old(self).can_emit(),
        ensures
            final(self).appended(old(self), Opcode::SarsVec, ty, seq![d, a, b]),
            r == d,
    {
        self.emit_binary(Opcode::SarsVec, ty, d, a, b)
    }

    pub fn gen_rotls_vec(&mut self, ty: Type, d: TempIdx, a: TempIdx, b: TempIdx) -> (r: TempIdx)
        requires
            old(self).can_emit(),
        ensures
            final(self).appended(old(self), Opcode::RotlsVec, ty, seq![d, a, b]),
            r == d,
    {
        self.emit_binary(Opcode::RotlsVec, ty, d, a, b)
    }

    pub fn gen_shlv_vec(&mut self, ty: Type, d: TempIdx, a: TempIdx, b: TempIdx) -> (r: TempIdx)
        requires
            old(self).can_emit(),
        ensures
            final(self).appended(old(self), Opcode::ShlvVec, ty, seq![d, a, b]),
            r == d,
    {
        self.emit_binary(Opcode::ShlvVec, ty, d, a, b)
    }

    pub fn gen_shrv_vec(&mut self, ty: Type, d: TempIdx, a: TempIdx, b: TempIdx) -> (r: TempIdx)
        requires
            old(self).can_emit(),
        ensures
            final(self).appended(old(self), Opcode::ShrvVec, ty, seq![d, a, b]),
            r == d,
    {
        self.emit_binary(Opcode::ShrvVec, ty, d, a, b)
    }

    pub fn gen_sarv_vec(&mut self, ty: Type, d: TempIdx, a: TempIdx, b: TempIdx) -> (r: TempIdx)
        requires
            old(self).can_emit(),
        ensures
            final(self).appended(old(self), Opcode::SarvVec, ty, seq![d, a, b]),
            r == d,
    {
        self.emit_binary(Opcode::SarvVec, ty, d, a, b)
    }

    pub fn gen_rotlv_vec(&mut self, ty: Type, d: TempIdx, a: TempIdx, b: TempIdx) -> (r: TempIdx)
        requires
            old(self).can_emit(),
        ensures
            final(self).appended(old(self), Opcode::RotlvVec, ty, seq![d, a, b]),
            r == d,
    {
        self.emit_binary(Opcode::RotlvVec, ty, d, a, b)
    }

    pub fn gen_rotrv_vec(&mut self, ty: Type, d: TempIdx, a: TempIdx, b: TempIdx) -> (r: TempIdx)
        requires
            old(self).can_emit(),
        ensures
            final(self).appended(old(self), Opcode::RotrvVec, ty, seq![d, a, b]),
            r == d,
    {
        self.emit_binary(Opcode::RotrvVec, ty, d, a, b)
    }

    pub fn gen_cmp_vec(&mut self, ty: Type, d: TempIdx, a: TempIdx, b: TempIdx, cond: Cond) -> (r: TempIdx)
        requires
            old(self).can_emit(),
        ensures
            final(self).appended(old(self), Opcode::CmpVec, ty, seq![d, a, b, spec_carg(cond.spec_code())]),
            r == d,
    {
        let args = [d, a, b, carg(cond.to_u32())];
        assert(args@ =~= seq![d, a, b, spec_carg(cond.spec_code())]);
        self.emit_args(Opcode::CmpVec, ty, &args);
        d
    }

    pub fn gen_bitsel_vec(&mut self, ty: Type, d: TempIdx, a: TempIdx, b: TempIdx, c: TempIdx) -> (r: TempIdx)
        requires
            old(self).can_emit(),
        ensures
            final(self).appended(old(self), Opcode::BitselVec, ty, seq![d, a, b, c]),
            r == d,
    {
        let args = [d, a, b, c];
        assert(args@ =~= seq![d, a, b, c]);
        self.emit_args(Opcode::BitselVec, ty, &args);
        d
    }

    pub fn gen_cmpsel_vec(&mut self, ty: Type, d: TempIdx, c1: TempIdx, c2: TempIdx, v1: TempIdx, v2: TempIdx, cond: Cond) -> (r: TempIdx)
        requires
            old(self).can_emit(),
        ensures
            final(self).appended(old(self), Opcode::CmpselVec, ty, seq![d, c1, c2, v1, v2, spec_carg(cond.spec_code())]),
            r == d,
    {
        let args = [d, c1, c2, v1, v2, carg(cond.to_u32())];
        assert(args@ =~= seq![d, c1, c2, v1, v2, spec_carg(cond.spec_code())]);
        self.emit_args(Opcode::CmpselVec, ty, &args);
        d
    }

    /// The arguments of a helper call: `dst`, six argument slots (missing
    /// ones filled with `zero`), and the helper address as two 32-bit halves.
    pub open spec fn call_args(dst: TempIdx, helper: u64, args: Seq<TempIdx>, zero: TempIdx) -> Seq<TempIdx> {
        seq![dst] + Seq::new(6, |i: int| if i < args.len() { args[i] } else { zero }) + seq![
            spec_carg(helper as u32),
            spec_carg((helper >> 32) as u32),
        ]
    }

    /// Call a helper at address `helper` with up to six arguments; the zero
    /// constant of type I64 fills unused argument slots.
    pub fn gen_call(&mut self, dst: TempIdx, helper: u64, args: &[TempIdx]) -> (r: TempIdx)
        requires
            old(self).can_emit(),
            old(self).temps_view().len() + 1 < u32::MAX,
        ensures
            r == dst,
            final(self).wf(),
            final(self).const_of(Type::I64, 0) is Some,
            final(self).ops_view().len() == old(self).ops_view().len() + 1,
            final(self).ops_view().subrange(0, old(self).ops_view().len() as int) == old(self).ops_view(),
            op_is(
                final(self).ops_view().last(),
                old(self).ops_view().len(),
                Opcode::Call,
                Type::I64,
                Self::call_args(dst, helper, args@, final(self).const_of(Type::I64, 0)->0),
            ),
            final(self).labels_view() == old(self).labels_view(),
            final(self).spec_nb_globals() == old(self).spec_nb_globals(),
            final(self).same_settings(old(self)),
            old(self).temps_view().len() <= final(self).temps_view().len() <= old(self).temps_view().len() + 1,
            forall|i: int| 0 <= i < old(self).temps_view().len() ==> #[trigger] final(self).temps_view()[i] == old(self).temps_view()[i],
            forall|ty: Type, val: u64| #[trigger] old(self).const_of(ty, val) is Some ==> final(self).const_of(ty, val) == old(self).const_of(ty, val),
            old(self).const_of(Type::I64, 0) is Some ==> final(self).temps_view() == old(self).temps_view(),
            old(self).const_of(Type::I64, 0) is None ==> {
                let z = final(self).const_of(Type::I64, 0)->0;
                &&& z.0 == old(self).temps_view().len()
                &&& final(self).temps_view().len() == old(self).temps_view().len() + 1
                &&& final(self).temps_view().last().idx == z
                &&& final(self).temps_view().last().kind == TempKind::Const
                &&& final(self).temps_view().last().val_type == TempVal::Const
                &&& final(self).temps_view().last().ty == Type::I64
                &&& final(self).temps_view().last().val == 0
            },
    {
        let mut full_args: Vec<TempIdx> = Vec::with_capacity(9);
        full_args.push(dst);
        let ghost c0 = *self;
        let zero = self.new_const(Type::I64, 0);
        proof {
            assert forall|i: int| 0 <= i < c0.temps_view().len() implies #[trigger] self.temps_view()[i] == c0.temps_view()[i] by {
                if c0.const_of(Type::I64, 0) is None {
                    assert(self.temps_view().subrange(0, c0.temps_view().len() as int)[i] == self.temps_view()[i]);
                }
            }
            assert forall|t: Type, v: u64| #[trigger] c0.const_of(t, v) is Some implies self.const_of(t, v) == c0.const_of(t, v) by {
                if c0.const_of(Type::I64, 0) is None {
                    crate::context::lemma_find_const_push(c0.consts_view(), crate::context::ConstEntry { ty: Type::I64, val: 0, idx: zero }, t, v);
                }
            }
        }
        let mut i: usize = 0;
        while i < 6
            invariant
                i <= 6,
                full_args@ == seq![dst] + Seq::new(i as nat, |k: int| if k < args@.len() { args@[k] } else { zero }),
            decreases 6 - i,
        {
            let arg = if i < args.len() { args[i] } else { zero };
            full_args.push(arg);
            assert(full_args@ =~= seq![dst] + Seq::new((i + 1) as nat, |k: int| if k < args@.len() { args@[k] } else { zero }));
            i = i + 1;
        }
        full_args.push(carg(helper as u32));
        full_args.push(carg((helper >> 32) as u32));
        assert(full_args@ =~= Self::call_args(dst, helper, args@, zero));
        let idx = self.next_op_idx();
        let op = Op::with_args(idx, Opcode::Call, Type::I64, full_args.as_slice());
        assert(op.args@.subrange(0, 9) =~= full_args@);
        self.emit_op(op);
        assert(self.ops_view().subrange(0, old(self).ops_view().len() as int) =~= old(self).ops_view());
        dst
    }

}

} // verus!
