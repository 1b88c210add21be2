use vstd::prelude::*;

use crate::context::{lemma_find_const_push, ConstEntry, Context};
use crate::ir_builder::{op_is, spec_carg};
use crate::op::{LifeData, Op};
use crate::opcode::Opcode;
use crate::temp::{TempIdx, TempKind};
use crate::types::{Cond, RegSet, Type};

verus! {

/// What an op means to a reader of the IR: its opcode, type and arguments.
pub type OpShape = (Opcode, Type, Seq<TempIdx>);

/// The shape of `op`.
pub open spec fn shape(op: Op) -> OpShape {
    (op.opc, op.op_type, op.args@.subrange(0, op.nargs as int))
}

/// `op` is the `i`-th op as the IR builder makes it: no parameters, no
/// liveness, no register hints, unused argument slots zero.
pub open spec fn clean_op(op: Op, i: int) -> bool {
    &&& op.idx.0 == i
    &&& op.param1 == 0
    &&& op.param2 == 0
    &&& op.life == LifeData(0)
    &&& op.output_pref@ == seq![RegSet(0), RegSet(0)]
    &&& op.nargs <= 10
    &&& forall|j: int| op.nargs <= j < 10 ==> #[trigger] op.args@[j] == TempIdx(0)
}

/// The shapes of the ops that `b` has past those of `a`.
pub open spec fn emitted(a: Context, b: Context) -> Seq<OpShape> {
    Seq::new(
        (b.ops_view().len() - a.ops_view().len()) as nat,
        |k: int| shape(b.ops_view()[a.ops_view().len() + k]),
    )
}

/// `b` came out of `a` by building IR: ops and temps only appended, the ops
/// clean, constants already made kept, globals and settings unchanged.
pub open spec fn grown(a: Context, b: Context) -> bool {
    &&& b.wf()
    &&& a.ops_view().len() <= b.ops_view().len()
    &&& forall|i: int| 0 <= i < a.ops_view().len() ==> #[trigger] b.ops_view()[i] == a.ops_view()[i]
    &&& forall|i: int| a.ops_view().len() <= i < b.ops_view().len() ==> #[trigger] clean_op(b.ops_view()[i], i)
    &&& a.temps_view().len() <= b.temps_view().len()
    &&& forall|i: int| 0 <= i < a.temps_view().len() ==> #[trigger] b.temps_view()[i] == a.temps_view()[i]
    &&& a.labels_view().len() <= b.labels_view().len()
    &&& forall|ty: Type, val: u64| #[trigger] a.const_of(ty, val) is Some ==> b.const_of(ty, val) == a.const_of(ty, val)
    &&& b.spec_nb_globals() == a.spec_nb_globals()
    &&& b.same_settings(&a)
}

/// `c` can take `n` more ops, temps and labels.
pub open spec fn room(c: Context, n: int) -> bool {
    &&& c.wf()
    &&& c.ops_view().len() + n < u32::MAX
    &&& c.temps_view().len() + n < u32::MAX
    &&& c.labels_view().len() + n < u32::MAX
}

/// `t` is a temp of type `ty` that was made between `a` and `b`, scoped to a
/// basic block.
pub open spec fn fresh_temp(a: Context, b: Context, t: TempIdx, ty: Type) -> bool {
    &&& a.temps_view().len() <= t.0 < b.temps_view().len()
    &&& b.temps_view()[t.0 as int].ty == ty
    &&& b.temps_view()[t.0 as int].kind == TempKind::Ebb
}

/// `t` is the constant temp that `b` holds for `val` of type `ty`.
pub open spec fn const_temp(b: Context, t: TempIdx, ty: Type, val: u64) -> bool {
    b.const_of(ty, val) == Some(t)
}

/// From `a` to `b` one op of shape `sh` was appended, and nothing else changed
/// (`s` is where the caller started).
pub open spec fn step_op(s: Context, a: Context, b: Context, sh: OpShape) -> bool {
    &&& grown(s, b)
    &&& grown(a, b)
    &&& emitted(s, b) == emitted(s, a).push(sh)
    &&& b.ops_view().len() == a.ops_view().len() + 1
    &&& b.temps_view().len() == a.temps_view().len()
    &&& b.labels_view().len() == a.labels_view().len()
    &&& out_temp(a, b, 0) == sh.2[0]
    &&& sh.2.len() > 1 ==> out2_temp(a, b, 0) == sh.2[1]
}

/// From `a` to `b` no op was appended; at most one temp or label was made.
pub open spec fn step_quiet(s: Context, a: Context, b: Context) -> bool {
    &&& grown(s, b)
    &&& grown(a, b)
    &&& emitted(s, b) == emitted(s, a)
    &&& b.ops_view().len() == a.ops_view().len()
    &&& b.temps_view().len() <= a.temps_view().len() + 1
    &&& b.labels_view().len() <= a.labels_view().len() + 1
}

/// From `a` to `b` at most `n` ops, temps and labels were made.
pub open spec fn spent(a: Context, b: Context, n: int) -> bool {
    &&& b.ops_view().len() <= a.ops_view().len() + n
    &&& b.temps_view().len() <= a.temps_view().len() + n
    &&& b.labels_view().len() <= a.labels_view().len() + n
}

/// From `a` to `b` the ops `x` were appended (`s` is where the caller
/// started).
pub open spec fn adds(s: Context, a: Context, b: Context, x: Seq<OpShape>) -> bool {
    &&& grown(s, b)
    &&& grown(a, b)
    &&& emitted(s, b) == emitted(s, a) + x
}

/// `b` is `a` with the ops `x` appended.
pub open spec fn builds(a: Context, b: Context, x: Seq<OpShape>) -> bool {
    &&& grown(a, b)
    &&& emitted(a, b) == x
}

/// The first argument of the `k`-th op that `b` has past those of `a`: the
/// output of that op.
pub open spec fn out_temp(a: Context, b: Context, k: int) -> TempIdx {
    b.ops_view()[a.ops_view().len() + k].args@[0]
}

/// The second argument of the `k`-th op that `b` has past those of `a`.
pub open spec fn out2_temp(a: Context, b: Context, k: int) -> TempIdx {
    b.ops_view()[a.ops_view().len() + k].args@[1]
}

/// Counting ops past `b`, which comes `l` ops after `a`, is counting past
/// `a` from `l`.
pub proof fn lemma_out_shift(a: Context, b: Context, f: Context, l: int)
    requires
        b.ops_view().len() == a.ops_view().len() + l,
    ensures
        forall|j: int| #[trigger] out_temp(b, f, j) == out_temp(a, f, l + j),
        forall|j: int| #[trigger] out2_temp(b, f, j) == out2_temp(a, f, l + j),
{
}

/// Appending `x` adds `x.len()` ops.
pub proof fn lemma_adds_len(s: Context, a: Context, b: Context, x: Seq<OpShape>)
    requires
        adds(s, a, b, x),
        grown(s, a),
    ensures
        b.ops_view().len() == a.ops_view().len() + x.len(),
{
    assert(emitted(s, b).len() == emitted(s, a).len() + x.len());
}

/// A caller that started at `s` and reached `a` can go on from `a`.
pub proof fn lemma_begin(a: Context)
    requires
        a.wf(),
    ensures
        grown(a, a),
        emitted(a, a) == Seq::<OpShape>::empty(),
        adds(a, a, a, Seq::<OpShape>::empty()),
{
    lemma_grown_refl(a);
    assert(emitted(a, a) + Seq::<OpShape>::empty() =~= emitted(a, a));
}

pub proof fn lemma_grown_refl(a: Context)
    requires
        a.wf(),
    ensures
        grown(a, a),
        emitted(a, a) == Seq::<OpShape>::empty(),
{
    assert(emitted(a, a) =~= Seq::<OpShape>::empty());
}

proof fn lemma_same_settings(s: Context, m: Context, n: Context)
    requires
        m.same_settings(&s),
        n.same_settings(&m),
    ensures
        n.same_settings(&s),
{
}

proof fn lemma_after_op(s: Context, m: Context, n: Context, opc: Opcode, ty: Type, args: Seq<TempIdx>)
    requires
        grown(s, m),
        n.appended(&m, opc, ty, args),
        0 < args.len() <= 10,
    ensures
        step_op(s, m, n, (opc, ty, args)),
{
    let ml = m.ops_view().len() as int;
    assert forall|i: int| 0 <= i < ml implies #[trigger] n.ops_view()[i] == m.ops_view()[i] by {
        assert(n.ops_view().subrange(0, ml)[i] == n.ops_view()[i]);
    }
    let op = n.ops_view()[ml];
    assert(op == n.ops_view().last());
    assert(clean_op(op, ml));
    assert(op.args@.subrange(0, op.nargs as int) == args);
    assert forall|i: int| s.ops_view().len() <= i < n.ops_view().len() implies #[trigger] clean_op(n.ops_view()[i], i) by {
        if i < ml {
            assert(n.ops_view()[i] == m.ops_view()[i]);
        }
    }
    assert forall|i: int| 0 <= i < s.ops_view().len() implies #[trigger] n.ops_view()[i] == s.ops_view()[i] by {
        assert(n.ops_view()[i] == m.ops_view()[i]);
    }
    lemma_same_settings(s, m, n);
    assert(emitted(s, n) =~= emitted(s, m).push((opc, ty, args))) by {
        let sl = s.ops_view().len() as int;
        assert forall|k: int| 0 <= k < ml - sl implies #[trigger] emitted(s, n)[k] == emitted(s, m)[k] by {
            assert(n.ops_view()[sl + k] == m.ops_view()[sl + k]);
        }
    }
    assert(emitted(m, n) =~= seq![(opc, ty, args)]);
    assert(op.args@.subrange(0, op.nargs as int)[0] == op.args@[0]);
    if args.len() > 1 {
        assert(op.args@.subrange(0, op.nargs as int)[1] == op.args@[1]);
    }
}

proof fn lemma_after_temp(s: Context, m: Context, n: Context)
    requires
        grown(s, m),
        n.wf(),
        n.temps_view() == m.temps_view().push(n.temps_view().last()),
        n.same_but_temps(&m),
    ensures
        step_quiet(s, m, n),
        n.temps_view().len() == m.temps_view().len() + 1,
        n.labels_view().len() == m.labels_view().len(),
{
    lemma_same_settings(s, m, n);
    assert(emitted(s, n) =~= emitted(s, m));
    assert forall|i: int| 0 <= i < m.temps_view().len() implies #[trigger] n.temps_view()[i] == m.temps_view()[i] by {
    }
    assert forall|i: int| 0 <= i < s.temps_view().len() implies #[trigger] n.temps_view()[i] == s.temps_view()[i] by {
        assert(n.temps_view()[i] == m.temps_view()[i]);
    }
}

proof fn lemma_after_label(s: Context, m: Context, n: Context)
    requires
        grown(s, m),
        n.wf(),
        n.labels_view().len() == m.labels_view().len() + 1,
        n.same_but_labels(&m),
    ensures
        step_quiet(s, m, n),
        n.temps_view().len() == m.temps_view().len(),
{
    lemma_same_settings(s, m, n);
    assert(emitted(s, n) =~= emitted(s, m));
}

proof fn lemma_after_const(s: Context, m: Context, n: Context, ty: Type, val: u64, r: TempIdx)
    requires
        grown(s, m),
        n.wf(),
        n.ops_view() == m.ops_view(),
        n.labels_view() == m.labels_view(),
        n.spec_nb_globals() == m.spec_nb_globals(),
        n.same_settings(&m),
        m.const_of(ty, val) is Some ==> n.temps_view() == m.temps_view() && n.consts_view()
            == m.consts_view(),
        m.const_of(ty, val) is None ==> {
            &&& n.temps_view().len() == m.temps_view().len() + 1
            &&& n.temps_view().subrange(0, m.temps_view().len() as int) == m.temps_view()
            &&& n.consts_view() == m.consts_view().push(ConstEntry { ty, val, idx: r })
        },
    ensures
        step_quiet(s, m, n),
        n.labels_view().len() == m.labels_view().len(),
{
    lemma_same_settings(s, m, n);
    assert(emitted(s, n) =~= emitted(s, m));
    let ml = m.temps_view().len() as int;
    assert forall|i: int| 0 <= i < ml implies #[trigger] n.temps_view()[i] == m.temps_view()[i] by {
        if m.const_of(ty, val) is None {
            assert(n.temps_view().subrange(0, ml)[i] == n.temps_view()[i]);
        }
    }
    assert forall|i: int| 0 <= i < s.temps_view().len() implies #[trigger] n.temps_view()[i] == s.temps_view()[i] by {
        assert(n.temps_view()[i] == m.temps_view()[i]);
    }
    assert forall|t: Type, v: u64| #[trigger] m.const_of(t, v) is Some implies n.const_of(t, v) == m.const_of(t, v) by {
        if m.const_of(ty, val) is None {
            lemma_find_const_push(m.consts_view(), ConstEntry { ty, val, idx: r }, t, v);
        }
    }
    assert forall|t: Type, v: u64| #[trigger] s.const_of(t, v) is Some implies n.const_of(t, v) == s.const_of(t, v) by {
        assert(m.const_of(t, v) == s.const_of(t, v));
    }
}

/// A new basic-block temp of type `ty`.
pub fn temp(ir: &mut Context, g: Ghost<Context>, ty: Type) -> (t: TempIdx)
    requires
        grown(g@, *old(ir)),
        room(*old(ir), 1),
    ensures
        step_quiet(g@, *old(ir), *final(ir)),
        final(ir).temps_view().len() == old(ir).temps_view().len() + 1,
        final(ir).labels_view().len() == old(ir).labels_view().len(),
        t.0 == old(ir).temps_view().len(),
        fresh_temp(*old(ir), *final(ir), t, ty),
{
    let ghost m = *ir;
    let t = ir.new_temp(ty);
    proof {
        lemma_after_temp(g@, m, *ir);
    }
    t
}

/// The constant `val` of type `ty`.
pub fn constant(ir: &mut Context, g: Ghost<Context>, ty: Type, val: u64) -> (t: TempIdx)
    requires
        grown(g@, *old(ir)),
        room(*old(ir), 1),
    ensures
        step_quiet(g@, *old(ir), *final(ir)),
        final(ir).labels_view().len() == old(ir).labels_view().len(),
        const_temp(*final(ir), t, ty, val),
{
    let ghost m = *ir;
    let t = ir.new_const(ty, val);
    proof {
        lemma_after_const(g@, m, *ir, ty, val, t);
    }
    t
}

/// A new label; its id is the number of labels before.
pub fn label(ir: &mut Context, g: Ghost<Context>) -> (l: u32)
    requires
        grown(g@, *old(ir)),
        room(*old(ir), 1),
    ensures
        step_quiet(g@, *old(ir), *final(ir)),
        final(ir).temps_view().len() == old(ir).temps_view().len(),
        final(ir).labels_view().len() == old(ir).labels_view().len() + 1,
        l == old(ir).labels_view().len(),
{
    let ghost m = *ir;
    let l = ir.new_label();
    proof {
        lemma_after_label(g@, m, *ir);
    }
    l
}

/// The two-operand integer operations that instructions map onto.
#[derive(Debug, Clone, Copy, PartialEq, Eq, Structural)]
pub enum BinOp {
    Add,
    Sub,
    Mul,
    And,
    Or,
    Xor,
    Shl,
    Shr,
    Sar,
}

impl BinOp {
    /// The IR opcode of the operation.
    pub open spec fn opcode(self) -> Opcode {
        match self {
            BinOp::Add => Opcode::Add,
            BinOp::Sub => Opcode::Sub,
            BinOp::Mul => Opcode::Mul,
            BinOp::And => Opcode::And,
            BinOp::Or => Opcode::Or,
            BinOp::Xor => Opcode::Xor,
            BinOp::Shl => Opcode::Shl,
            BinOp::Shr => Opcode::Shr,
            BinOp::Sar => Opcode::Sar,
        }
    }
}

/// `d = a op b`.
pub fn emit_binop(ir: &mut Context, g: Ghost<Context>, op: BinOp, ty: Type, d: TempIdx, a: TempIdx, b: TempIdx) -> (r: TempIdx)
    requires
        grown(g@, *old(ir)),
        room(*old(ir), 1),
    ensures
        step_op(g@, *old(ir), *final(ir), (op.opcode(), ty, seq![d, a, b])),
        r == d,
{
    let ghost m = *ir;
    match op {
        BinOp::Add => { ir.gen_add(ty, d, a, b); },
        BinOp::Sub => { ir.gen_sub(ty, d, a, b); },
        BinOp::Mul => { ir.gen_mul(ty, d, a, b); },
        BinOp::And => { ir.gen_and(ty, d, a, b); },
        BinOp::Or => { ir.gen_or(ty, d, a, b); },
        BinOp::Xor => { ir.gen_xor(ty, d, a, b); },
        BinOp::Shl => { ir.gen_shl(ty, d, a, b); },
        BinOp::Shr => { ir.gen_shr(ty, d, a, b); },
        BinOp::Sar => { ir.gen_sar(ty, d, a, b); },
    }
    proof {
        lemma_after_op(g@, m, *ir, op.opcode(), ty, seq![d, a, b]);
    }
    d
}

/// `d = s`.
pub fn emit_mov(ir: &mut Context, g: Ghost<Context>, ty: Type, d: TempIdx, s: TempIdx)
    requires
        grown(g@, *old(ir)),
        room(*old(ir), 1),
    ensures
        step_op(g@, *old(ir), *final(ir), (Opcode::Mov, ty, seq![d, s])),
{
    let ghost m = *ir;
    ir.gen_mov(ty, d, s);
    proof {
        lemma_after_op(g@, m, *ir, Opcode::Mov, ty, seq![d, s]);
    }
}

/// `d = -s`.
pub fn emit_neg(ir: &mut Context, g: Ghost<Context>, ty: Type, d: TempIdx, s: TempIdx)
    requires
        grown(g@, *old(ir)),
        room(*old(ir), 1),
    ensures
        step_op(g@, *old(ir), *final(ir), (Opcode::Neg, ty, seq![d, s])),
{
    let ghost m = *ir;
    ir.gen_neg(ty, d, s);
    proof {
        lemma_after_op(g@, m, *ir, Opcode::Neg, ty, seq![d, s]);
    }
}

/// `d = !s`.
pub fn emit_not(ir: &mut Context, g: Ghost<Context>, ty: Type, d: TempIdx, s: TempIdx)
    requires
        grown(g@, *old(ir)),
        room(*old(ir), 1),
    ensures
        step_op(g@, *old(ir), *final(ir), (Opcode::Not, ty, seq![d, s])),
{
    let ghost m = *ir;
    ir.gen_not(ty, d, s);
    proof {
        lemma_after_op(g@, m, *ir, Opcode::Not, ty, seq![d, s]);
    }
}

/// `d` = zero extension of the 32-bit `s`.
pub fn emit_ext_u32_i64(ir: &mut Context, g: Ghost<Context>, d: TempIdx, s: TempIdx)
    requires
        grown(g@, *old(ir)),
        room(*old(ir), 1),
    ensures
        step_op(g@, *old(ir), *final(ir), (Opcode::ExtUI32I64, Type::I64, seq![d, s])),
{
    let ghost m = *ir;
    ir.gen_ext_u32_i64(d, s);
    proof {
        lemma_after_op(g@, m, *ir, Opcode::ExtUI32I64, Type::I64, seq![d, s]);
    }
}

/// `d` = sign extension of the 32-bit `s`.
pub fn emit_ext_i32_i64(ir: &mut Context, g: Ghost<Context>, d: TempIdx, s: TempIdx)
    requires
        grown(g@, *old(ir)),
        room(*old(ir), 1),
    ensures
        step_op(g@, *old(ir), *final(ir), (Opcode::ExtI32I64, Type::I64, seq![d, s])),
{
    let ghost m = *ir;
    ir.gen_ext_i32_i64(d, s);
    proof {
        lemma_after_op(g@, m, *ir, Opcode::ExtI32I64, Type::I64, seq![d, s]);
    }
}

/// `d` = low 32 bits of `s`.
pub fn emit_extrl_i64_i32(ir: &mut Context, g: Ghost<Context>, d: TempIdx, s: TempIdx)
    requires
        grown(g@, *old(ir)),
        room(*old(ir), 1),
    ensures
        step_op(g@, *old(ir), *final(ir), (Opcode::ExtrlI64I32, Type::I32, seq![d, s])),
{
    let ghost m = *ir;
    ir.gen_extrl_i64_i32(d, s);
    proof {
        lemma_after_op(g@, m, *ir, Opcode::ExtrlI64I32, Type::I32, seq![d, s]);
    }
}

/// `d = (a cond b) ? 1 : 0`.
pub fn emit_setcond(ir: &mut Context, g: Ghost<Context>, ty: Type, d: TempIdx, a: TempIdx, b: TempIdx, cond: Cond)
    requires
        grown(g@, *old(ir)),
        room(*old(ir), 1),
    ensures
        step_op(g@, *old(ir), *final(ir), (Opcode::SetCond, ty, seq![d, a, b, spec_carg(cond.spec_code())])),
{
    let ghost m = *ir;
    ir.gen_setcond(ty, d, a, b, cond);
    proof {
        lemma_after_op(g@, m, *ir, Opcode::SetCond, ty, seq![d, a, b, spec_carg(cond.spec_code())]);
    }
}

/// `d = (c1 cond c2) ? v1 : v2`.
pub fn emit_movcond(
    ir: &mut Context,
    g: Ghost<Context>,
    ty: Type,
    d: TempIdx,
    c1: TempIdx,
    c2: TempIdx,
    v1: TempIdx,
    v2: TempIdx,
    cond: Cond,
)
    requires
        grown(g@, *old(ir)),
        room(*old(ir), 1),
    ensures
        step_op(g@, *old(ir), *final(ir), (Opcode::MovCond, ty, seq![d, c1, c2, v1, v2, spec_carg(cond.spec_code())])),
{
    let ghost m = *ir;
    ir.gen_movcond(ty, d, c1, c2, v1, v2, cond);
    proof {
        lemma_after_op(g@, m, *ir, Opcode::MovCond, ty, seq![d, c1, c2, v1, v2, spec_carg(cond.spec_code())]);
    }
}

/// `(dl, dh)` = quotient and remainder of the signed double word `(al, ah)` by `b`.
pub fn emit_divs2(ir: &mut Context, g: Ghost<Context>, ty: Type, dl: TempIdx, dh: TempIdx, al: TempIdx, ah: TempIdx, b: TempIdx)
    requires
        grown(g@, *old(ir)),
        room(*old(ir), 1),
    ensures
        step_op(g@, *old(ir), *final(ir), (Opcode::DivS2, ty, seq![dl, dh, al, ah, b])),
{
    let ghost m = *ir;
    ir.gen_divs2(ty, dl, dh, al, ah, b);
    proof {
        lemma_after_op(g@, m, *ir, Opcode::DivS2, ty, seq![dl, dh, al, ah, b]);
    }
}

/// `(dl, dh)` = quotient and remainder of the unsigned double word `(al, ah)` by `b`.
pub fn emit_divu2(ir: &mut Context, g: Ghost<Context>, ty: Type, dl: TempIdx, dh: TempIdx, al: TempIdx, ah: TempIdx, b: TempIdx)
    requires
        grown(g@, *old(ir)),
        room(*old(ir), 1),
    ensures
        step_op(g@, *old(ir), *final(ir), (Opcode::DivU2, ty, seq![dl, dh, al, ah, b])),
{
    let ghost m = *ir;
    ir.gen_divu2(ty, dl, dh, al, ah, b);
    proof {
        lemma_after_op(g@, m, *ir, Opcode::DivU2, ty, seq![dl, dh, al, ah, b]);
    }
}

/// `(dl, dh)` = the signed double-width product of `a` and `b`.
pub fn emit_muls2(ir: &mut Context, g: Ghost<Context>, ty: Type, dl: TempIdx, dh: TempIdx, a: TempIdx, b: TempIdx)
    requires
        grown(g@, *old(ir)),
        room(*old(ir), 1),
    ensures
        step_op(g@, *old(ir), *final(ir), (Opcode::MulS2, ty, seq![dl, dh, a, b])),
{
    let ghost m = *ir;
    ir.gen_muls2(ty, dl, dh, a, b);
    proof {
        lemma_after_op(g@, m, *ir, Opcode::MulS2, ty, seq![dl, dh, a, b]);
    }
}

/// `(dl, dh)` = the unsigned double-width product of `a` and `b`.
pub fn emit_mulu2(ir: &mut Context, g: Ghost<Context>, ty: Type, dl: TempIdx, dh: TempIdx, a: TempIdx, b: TempIdx)
    requires
        grown(g@, *old(ir)),
        room(*old(ir), 1),
    ensures
        step_op(g@, *old(ir), *final(ir), (Opcode::MulU2, ty, seq![dl, dh, a, b])),
{
    let ghost m = *ir;
    ir.gen_mulu2(ty, dl, dh, a, b);
    proof {
        lemma_after_op(g@, m, *ir, Opcode::MulU2, ty, seq![dl, dh, a, b]);
    }
}

/// `dst = *(base + offset)` in host memory.
pub fn emit_ld(ir: &mut Context, g: Ghost<Context>, ty: Type, dst: TempIdx, base: TempIdx, offset: i64)
    requires
        grown(g@, *old(ir)),
        room(*old(ir), 1),
    ensures
        step_op(g@, *old(ir), *final(ir), (Opcode::Ld, ty, seq![dst, base, spec_carg(offset as u32)])),
{
    let ghost m = *ir;
    ir.gen_ld(ty, dst, base, offset);
    proof {
        lemma_after_op(g@, m, *ir, Opcode::Ld, ty, seq![dst, base, spec_carg(offset as u32)]);
    }
}

/// `*(base + offset) = src` in host memory.
pub fn emit_st(ir: &mut Context, g: Ghost<Context>, ty: Type, src: TempIdx, base: TempIdx, offset: i64)
    requires
        grown(g@, *old(ir)),
        room(*old(ir), 1),
    ensures
        step_op(g@, *old(ir), *final(ir), (Opcode::St, ty, seq![src, base, spec_carg(offset as u32)])),
{
    let ghost m = *ir;
    ir.gen_st(ty, src, base, offset);
    proof {
        lemma_after_op(g@, m, *ir, Opcode::St, ty, seq![src, base, spec_carg(offset as u32)]);
    }
}

/// Guest load of `memop` at `addr` into `dst`.
pub fn emit_qemu_ld(ir: &mut Context, g: Ghost<Context>, ty: Type, dst: TempIdx, addr: TempIdx, memop: u32)
    requires
        grown(g@, *old(ir)),
        room(*old(ir), 1),
    ensures
        step_op(g@, *old(ir), *final(ir), (Opcode::QemuLd, ty, seq![dst, addr, spec_carg(memop)])),
{
    let ghost m = *ir;
    ir.gen_qemu_ld(ty, dst, addr, memop);
    proof {
        lemma_after_op(g@, m, *ir, Opcode::QemuLd, ty, seq![dst, addr, spec_carg(memop)]);
    }
}

/// Guest store of `memop` of `val` at `addr`.
pub fn emit_qemu_st(ir: &mut Context, g: Ghost<Context>, ty: Type, val: TempIdx, addr: TempIdx, memop: u32)
    requires
        grown(g@, *old(ir)),
        room(*old(ir), 1),
    ensures
        step_op(g@, *old(ir), *final(ir), (Opcode::QemuSt, ty, seq![val, addr, spec_carg(memop)])),
{
    let ghost m = *ir;
    ir.gen_qemu_st(ty, val, addr, memop);
    proof {
        lemma_after_op(g@, m, *ir, Opcode::QemuSt, ty, seq![val, addr, spec_carg(memop)]);
    }
}

/// Branch to `label_id` when `a cond b`.
pub fn emit_brcond(ir: &mut Context, g: Ghost<Context>, ty: Type, a: TempIdx, b: TempIdx, cond: Cond, label_id: u32)
    requires
        grown(g@, *old(ir)),
        room(*old(ir), 1),
    ensures
        step_op(g@, *old(ir), *final(ir), (Opcode::BrCond, ty, seq![a, b, spec_carg(cond.spec_code()), spec_carg(label_id)])),
{
    let ghost m = *ir;
    ir.gen_brcond(ty, a, b, cond, label_id);
    proof {
        lemma_after_op(g@, m, *ir, Opcode::BrCond, ty, seq![a, b, spec_carg(cond.spec_code()), spec_carg(label_id)]);
    }
}

/// Place `label_id` here.
pub fn emit_set_label(ir: &mut Context, g: Ghost<Context>, label_id: u32)
    requires
        grown(g@, *old(ir)),
        room(*old(ir), 1),
    ensures
        step_op(g@, *old(ir), *final(ir), (Opcode::SetLabel, Type::I64, seq![spec_carg(label_id)])),
{
    let ghost m = *ir;
    ir.gen_set_label(label_id);
    proof {
        lemma_after_op(g@, m, *ir, Opcode::SetLabel, Type::I64, seq![spec_carg(label_id)]);
    }
}

/// Leave the block with exit value `val`.
pub fn emit_exit_tb(ir: &mut Context, g: Ghost<Context>, val: u64)
    requires
        grown(g@, *old(ir)),
        room(*old(ir), 1),
    ensures
        step_op(g@, *old(ir), *final(ir), (Opcode::ExitTb, Type::I64, seq![spec_carg(val as u32)])),
{
    let ghost m = *ir;
    ir.gen_exit_tb(val);
    proof {
        lemma_after_op(g@, m, *ir, Opcode::ExitTb, Type::I64, seq![spec_carg(val as u32)]);
    }
}

/// Memory barrier of kind `bar`.
pub fn emit_mb(ir: &mut Context, g: Ghost<Context>, bar: u32)
    requires
        grown(g@, *old(ir)),
        room(*old(ir), 1),
    ensures
        step_op(g@, *old(ir), *final(ir), (Opcode::Mb, Type::I64, seq![spec_carg(bar)])),
{
    let ghost m = *ir;
    ir.gen_mb(bar);
    proof {
        lemma_after_op(g@, m, *ir, Opcode::Mb, Type::I64, seq![spec_carg(bar)]);
    }
}

/// Mark the start of the guest instruction at `pc`.
pub fn emit_insn_start(ir: &mut Context, g: Ghost<Context>, pc: u64)
    requires
        grown(g@, *old(ir)),
        room(*old(ir), 1),
    ensures
        step_op(g@, *old(ir), *final(ir), (Opcode::InsnStart, Type::I64, seq![spec_carg(pc as u32), spec_carg((pc >> 32) as u32)])),
{
    let ghost m = *ir;
    ir.gen_insn_start(pc);
    proof {
        lemma_after_op(g@, m, *ir, Opcode::InsnStart, Type::I64, seq![spec_carg(pc as u32), spec_carg((pc >> 32) as u32)]);
    }
}

proof fn lemma_after_call(s: Context, m: Context, n: Context, dst: TempIdx, helper: u64, args: Seq<TempIdx>)
    requires
        grown(s, m),
        n.wf(),
        n.const_of(Type::I64, 0) is Some,
        n.ops_view().len() == m.ops_view().len() + 1,
        n.ops_view().subrange(0, m.ops_view().len() as int) == m.ops_view(),
        op_is(n.ops_view().last(), m.ops_view().len(), Opcode::Call, Type::I64, Context::call_args(dst, helper, args, n.const_of(Type::I64, 0)->0)),
        n.labels_view() == m.labels_view(),
        n.spec_nb_globals() == m.spec_nb_globals(),
        n.same_settings(&m),
        m.temps_view().len() <= n.temps_view().len() <= m.temps_view().len() + 1,
        forall|i: int| 0 <= i < m.temps_view().len() ==> #[trigger] n.temps_view()[i] == m.temps_view()[i],
        forall|ty: Type, val: u64| #[trigger] m.const_of(ty, val) is Some ==> n.const_of(ty, val) == m.const_of(ty, val),
    ensures
        grown(s, n),
        grown(m, n),
        emitted(s, n) == emitted(s, m).push((Opcode::Call, Type::I64, Context::call_args(dst, helper, args, n.const_of(Type::I64, 0)->0))),
        n.ops_view().len() == m.ops_view().len() + 1,
        n.labels_view().len() == m.labels_view().len(),
        out_temp(m, n, 0) == dst,
{
    let sh = (Opcode::Call, Type::I64, Context::call_args(dst, helper, args, n.const_of(Type::I64, 0)->0));
    let ml = m.ops_view().len() as int;
    assert forall|i: int| 0 <= i < ml implies #[trigger] n.ops_view()[i] == m.ops_view()[i] by {
        assert(n.ops_view().subrange(0, ml)[i] == n.ops_view()[i]);
    }
    let op = n.ops_view()[ml];
    assert(op == n.ops_view().last());
    assert(sh.2.len() == 9);
    assert(clean_op(op, ml));
    assert(op.args@.subrange(0, op.nargs as int) == sh.2);
    assert(op.args@.subrange(0, op.nargs as int)[0] == op.args@[0]);
    assert forall|i: int| s.ops_view().len() <= i < n.ops_view().len() implies #[trigger] clean_op(n.ops_view()[i], i) by {
        if i < ml {
            assert(n.ops_view()[i] == m.ops_view()[i]);
        }
    }
    assert forall|i: int| 0 <= i < s.ops_view().len() implies #[trigger] n.ops_view()[i] == s.ops_view()[i] by {
        assert(n.ops_view()[i] == m.ops_view()[i]);
    }
    assert forall|i: int| 0 <= i < s.temps_view().len() implies #[trigger] n.temps_view()[i] == s.temps_view()[i] by {
        assert(n.temps_view()[i] == m.temps_view()[i]);
    }
    assert forall|t: Type, v: u64| #[trigger] s.const_of(t, v) is Some implies n.const_of(t, v) == s.const_of(t, v) by {
        assert(m.const_of(t, v) == s.const_of(t, v));
    }
    lemma_same_settings(s, m, n);
    assert(emitted(s, n) =~= emitted(s, m).push(sh)) by {
        let sl = s.ops_view().len() as int;
        assert forall|k: int| 0 <= k < ml - sl implies #[trigger] emitted(s, n)[k] == emitted(s, m)[k] by {
            assert(n.ops_view()[sl + k] == m.ops_view()[sl + k]);
        }
    }
}

/// Call the helper at host address `helper` with `args`; its result goes to `dst`.
pub fn emit_call(ir: &mut Context, g: Ghost<Context>, dst: TempIdx, helper: u64, args: &[TempIdx])
    requires
        grown(g@, *old(ir)),
        room(*old(ir), 1),
    ensures
        grown(g@, *final(ir)),
        grown(*old(ir), *final(ir)),
        emitted(g@, *final(ir)) == emitted(g@, *old(ir)).push(
            (Opcode::Call, Type::I64, Context::call_args(dst, helper, args@, final(ir).const_of(Type::I64, 0)->0)),
        ),
        final(ir).const_of(Type::I64, 0) is Some,
        final(ir).ops_view().len() == old(ir).ops_view().len() + 1,
        final(ir).temps_view().len() <= old(ir).temps_view().len() + 1,
        final(ir).labels_view().len() == old(ir).labels_view().len(),
        out_temp(*old(ir), *final(ir), 0) == dst,
{
    let ghost m = *ir;
    ir.gen_call(dst, helper, args);
    proof {
        lemma_after_call(g@, m, *ir, dst, helper, args@);
    }
}

} // verus!
