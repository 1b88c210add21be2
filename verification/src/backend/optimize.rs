use vstd::prelude::*;

use crate::backend::fold::{
    cond_from_carg, eval_cond, fold_binary_rule, spec_fold_binary, spec_type_mask, type_mask,
    Rewrite,
};
use crate::context::Context;
use crate::op::Op;
use crate::opcode::{lemma_opcode_arg_counts, OpDef, OpFlags, Opcode};
use crate::temp::{TempIdx, TempKind};
use crate::types::Type;

verus! {

/// What the pass knows of a temp at the current op.
#[derive(Debug, Clone, Copy, PartialEq, Eq, Structural)]
pub struct TempInfo {
    /// The temp holds `val`.
    pub is_const: bool,
    pub val: u64,
    /// The temp holds the same value as this one.
    pub copy_of: Option<TempIdx>,
}

impl TempInfo {
    /// Nothing known.
    pub fn unknown() -> (t: Self)
        ensures
            !t.is_const,
            t.val == 0,
            t.copy_of is None,
    {
        TempInfo { is_const: false, val: 0, copy_of: None }
    }
}

/// The ops that end a basic block for the pass: nothing known survives them.
pub open spec fn resets_knowledge(opc: Opcode) -> bool {
    matches!(opc, Opcode::SetLabel | Opcode::Br | Opcode::ExitTb | Opcode::GotoTb | Opcode::GotoPtr
        | Opcode::Call)
}

/// The ops the pass leaves alone (but whose outputs it forgets).
pub open spec fn not_optimized(opc: Opcode) -> bool {
    opc.spec_def().flags.has(crate::opcode::FLAG_SIDE_EFFECTS) || opc.spec_def().flags.has(
        crate::opcode::FLAG_VECTOR,
    ) || opc is Nop || opc is InsnStart || opc is Discard
}

/// The binary ops the pass folds.
pub open spec fn is_foldable_binary(opc: Opcode) -> bool {
    matches!(opc, Opcode::Add | Opcode::Sub | Opcode::Mul | Opcode::And | Opcode::Or | Opcode::Xor
        | Opcode::AndC | Opcode::Shl | Opcode::Shr | Opcode::Sar | Opcode::RotL | Opcode::RotR)
}

/// The ops the pass may turn into a `mov`.
pub open spec fn is_foldable(opc: Opcode) -> bool {
    is_foldable_binary(opc) || matches!(opc, Opcode::Neg | Opcode::Not | Opcode::ExtI32I64
        | Opcode::ExtUI32I64 | Opcode::ExtrlI64I32 | Opcode::ExtrhI64I32)
}

/// `n` is `o` with input arguments possibly replaced by copies of them.
pub open spec fn same_but_inputs(n: Op, o: Op) -> bool {
    let d = o.opc.spec_def();
    &&& n.opc == o.opc
    &&& n.nargs == o.nargs
    &&& forall|k: int|
        0 <= k < 10 && !(d.nb_oargs <= k < d.nb_oargs + d.nb_iargs) ==> #[trigger] n.args@[k] == o.args@[k]
}

/// The forms the pass may give op `o`: the op itself with inputs replaced by
/// copies, a `mov` (or `neg`) into the same output for a folded op, an
/// unconditional branch to the label of a branch that is always taken, or a
/// `nop` for one that never is.
pub open spec fn rewritten(n: Op, o: Op) -> bool {
    &&& n.idx == o.idx
    &&& n.op_type == o.op_type
    &&& n.life == o.life
    &&& n.output_pref == o.output_pref
    &&& {
        ||| same_but_inputs(n, o)
        ||| (is_foldable(o.opc) && n.opc is Mov && n.nargs == 2 && n.args@[0] == o.args@[0])
        ||| (o.opc is Sub && n.opc is Neg && n.nargs == 2 && n.args@[0] == o.args@[0])
        ||| (o.opc is BrCond && n.opc is Br && n.nargs == 1 && n.args@[0] == o.args@[3])
        ||| (o.opc is BrCond && n.opc is Nop && n.nargs == 0)
    }
}

/// Nothing known of a temp.
pub open spec fn unknown_info() -> TempInfo {
    TempInfo { is_const: false, val: 0, copy_of: None }
}

/// What the table `v` says of temp `i` (nothing when out of range).
pub open spec fn info_at(v: Seq<TempInfo>, i: int) -> TempInfo {
    if 0 <= i < v.len() {
        v[i]
    } else {
        unknown_info()
    }
}

/// The table `v` grown with unknown entries so that it covers temp `idx`.
pub open spec fn grown(v: Seq<TempInfo>, idx: u32) -> Seq<TempInfo> {
    if (idx as int) < v.len() {
        v
    } else {
        v + Seq::new((idx + 1 - v.len()) as nat, |i: int| unknown_info())
    }
}

/// The table `v` once `t` is redefined: nothing is known of `t` but its
/// last value field, and no temp is a copy of it any more.
pub open spec fn forget(v: Seq<TempInfo>, t: TempIdx) -> Seq<TempInfo> {
    Seq::new(
        v.len(),
        |i: int|
            if i == t.0 {
                TempInfo { is_const: false, val: v[i].val, copy_of: None }
            } else {
                TempInfo {
                    is_const: v[i].is_const,
                    val: v[i].val,
                    copy_of: if v[i].copy_of == Some(t) {
                        None
                    } else {
                        v[i].copy_of
                    },
                }
            },
    )
}

/// The table `v` after forgetting the first `n` outputs `args[..n]` that are
/// covered by the table and by the context's temps and are not constants.
pub open spec fn forget_outputs(v: Seq<TempInfo>, args: Seq<TempIdx>, n: int, temps: Seq<crate::temp::Temp>) -> Seq<TempInfo>
    decreases n,
{
    if n <= 0 {
        v
    } else {
        let w = forget_outputs(v, args, n - 1, temps);
        let t = args[n - 1];
        if (t.0 as int) < w.len() && (t.0 as int) < temps.len() && !(temps[t.0 as int].kind == TempKind::Const) {
            forget(w, t)
        } else {
            w
        }
    }
}

/// The source that input `t` is replaced by: what it is a known copy of, or itself.
pub open spec fn copy_source(v: Seq<TempInfo>, t: TempIdx) -> TempIdx {
    match info_at(v, t.0 as int).copy_of {
        Some(s) => s,
        None => t,
    }
}

/// The table after recording that `dst` holds `val`.
pub open spec fn with_const(v: Seq<TempInfo>, dst: TempIdx, val: u64) -> Seq<TempInfo> {
    if dst.0 == u32::MAX {
        v
    } else {
        grown(v, dst.0).update(dst.0 as int, TempInfo { is_const: true, val, copy_of: None })
    }
}

/// The table after recording that `dst` holds what `src` holds: `src`'s
/// constant when it has one, else a copy of `src`.
pub open spec fn with_copy(v: Seq<TempInfo>, dst: TempIdx, src: TempIdx) -> Seq<TempInfo> {
    if dst.0 == u32::MAX {
        v
    } else {
        let w = grown(v, dst.0);
        let si = info_at(w, src.0 as int);
        w.update(
            dst.0 as int,
            if si.is_const {
                TempInfo { is_const: true, val: si.val, copy_of: None }
            } else {
                TempInfo { is_const: false, val: w[dst.0 as int].val, copy_of: Some(src) }
            },
        )
    }
}

/// Entry `e` of the constant table names a constant temp of `temps` that holds `e.val`.
pub open spec fn entry_ok(temps: Seq<crate::temp::Temp>, e: crate::context::ConstEntry) -> bool {
    &&& (e.idx.0 as int) < temps.len()
    &&& temps[e.idx.0 as int].kind is Const
    &&& temps[e.idx.0 as int].val == e.val
}

/// Every entry of the context's constant table names a constant temp of its value.
pub open spec fn consts_ok(ctx: &Context) -> bool {
    forall|k: int| 0 <= k < ctx.consts_view().len() ==> entry_ok(ctx.temps_view(), #[trigger] ctx.consts_view()[k])
}

proof fn lemma_find_const_ok(s: Seq<crate::context::ConstEntry>, temps: Seq<crate::temp::Temp>, ty: Type, val: u64)
    requires
        forall|k: int| 0 <= k < s.len() ==> entry_ok(temps, #[trigger] s[k]),
        crate::context::find_const(s, ty, val) is Some,
    ensures
        entry_ok(temps, crate::context::ConstEntry { ty, val, idx: crate::context::find_const(s, ty, val)->0 }),
    decreases s.len(),
{
    assert(entry_ok(temps, s[0]));
    if !(s[0].ty == ty && s[0].val == val) {
        let t = s.drop_first();
        assert forall|k: int| 0 <= k < t.len() implies entry_ok(temps, #[trigger] t[k]) by {
            assert(t[k] == s[k + 1]);
        }
        lemma_find_const_ok(t, temps, ty, val);
    }
}

/// Temp `t` is a constant temp of `temps`.
pub open spec fn is_const_temp(temps: Seq<crate::temp::Temp>, t: TempIdx) -> bool {
    (t.0 as int) < temps.len() && temps[t.0 as int].kind is Const
}

/// What the pass records for a constant temp: its value, and no copy.
pub open spec fn const_rec(t: crate::temp::Temp) -> TempInfo {
    TempInfo { is_const: true, val: t.val, copy_of: None }
}

/// The table records every constant temp of `temps` with its value.
pub open spec fn consts_known(info: Seq<TempInfo>, temps: Seq<crate::temp::Temp>) -> bool {
    forall|i: int|
        0 <= i < temps.len() && (#[trigger] temps[i]).kind is Const ==> i < info.len() && info[i] == const_rec(temps[i])
}

/// `dst` is a temp of `ctx` that is not a constant.
pub open spec fn plain_out(ctx: &Context, dst: TempIdx) -> bool {
    (dst.0 as int) < ctx.temps_view().len() && !(ctx.temps_view()[dst.0 as int].kind is Const)
}

/// Where the constant table is consistent, the table of facts records every
/// constant temp and the op writes a non-constant temp, both stay so.
pub open spec fn facts_kept(oc: &Context, oi: Seq<TempInfo>, nc: &Context, ni: Seq<TempInfo>, dst: TempIdx) -> bool {
    consts_ok(oc) && consts_known(oi, oc.temps_view()) && plain_out(oc, dst) ==> consts_ok(nc) && consts_known(
        ni,
        nc.temps_view(),
    )
}

proof fn lemma_known_grow(v: Seq<TempInfo>, temps: Seq<crate::temp::Temp>, idx: u32)
    requires
        consts_known(v, temps),
    ensures
        consts_known(grown(v, idx), temps),
{
    assert forall|i: int| 0 <= i < temps.len() && (#[trigger] temps[i]).kind is Const implies i < grown(v, idx).len()
        && grown(v, idx)[i] == const_rec(temps[i]) by {
        assert(i < v.len());
    }
}

proof fn lemma_known_update(v: Seq<TempInfo>, temps: Seq<crate::temp::Temp>, j: int, e: TempInfo)
    requires
        consts_known(v, temps),
        0 <= j < v.len(),
        j < temps.len() && temps[j].kind is Const ==> e == const_rec(temps[j]),
    ensures
        consts_known(v.update(j, e), temps),
{
}

proof fn lemma_known_forget(v: Seq<TempInfo>, temps: Seq<crate::temp::Temp>, t: TempIdx)
    requires
        consts_known(v, temps),
        !is_const_temp(temps, t),
    ensures
        consts_known(forget(v, t), temps),
{
    assert forall|i: int| 0 <= i < temps.len() && (#[trigger] temps[i]).kind is Const implies i < forget(v, t).len()
        && forget(v, t)[i] == const_rec(temps[i]) by {
        assert(i != t.0);
    }
}

proof fn lemma_known_forget_outputs(v: Seq<TempInfo>, args: Seq<TempIdx>, n: int, temps: Seq<crate::temp::Temp>)
    requires
        consts_known(v, temps),
    ensures
        consts_known(forget_outputs(v, args, n, temps), temps),
        forget_outputs(v, args, n, temps).len() == v.len(),
    decreases n,
{
    if n > 0 {
        lemma_known_forget_outputs(v, args, n - 1, temps);
        let w = forget_outputs(v, args, n - 1, temps);
        let t = args[n - 1];
        if (t.0 as int) < w.len() && (t.0 as int) < temps.len() && !(temps[t.0 as int].kind == TempKind::Const) {
            lemma_known_forget(w, temps, t);
        }
    }
}

proof fn lemma_known_with_const(v: Seq<TempInfo>, temps: Seq<crate::temp::Temp>, dst: TempIdx, val: u64)
    requires
        consts_known(v, temps),
        !is_const_temp(temps, dst),
    ensures
        consts_known(with_const(v, dst, val), temps),
{
    if dst.0 != u32::MAX {
        lemma_known_grow(v, temps, dst.0);
        lemma_known_update(grown(v, dst.0), temps, dst.0 as int, TempInfo { is_const: true, val, copy_of: None });
    }
}

proof fn lemma_known_with_copy(v: Seq<TempInfo>, temps: Seq<crate::temp::Temp>, dst: TempIdx, src: TempIdx)
    requires
        consts_known(v, temps),
        !is_const_temp(temps, dst),
    ensures
        consts_known(with_copy(v, dst, src), temps),
{
    if dst.0 != u32::MAX {
        lemma_known_grow(v, temps, dst.0);
        let w = grown(v, dst.0);
        let si = info_at(w, src.0 as int);
        lemma_known_update(
            w,
            temps,
            dst.0 as int,
            if si.is_const {
                TempInfo { is_const: true, val: si.val, copy_of: None }
            } else {
                TempInfo { is_const: false, val: w[dst.0 as int].val, copy_of: Some(src) }
            },
        );
    }
}

proof fn lemma_known_invalidate(v: Seq<TempInfo>, temps: Seq<crate::temp::Temp>, dst: TempIdx)
    requires
        consts_known(v, temps),
        !is_const_temp(temps, dst),
    ensures
        consts_known(if dst.0 == u32::MAX { v } else { forget(grown(v, dst.0), dst) }, temps),
{
    if dst.0 != u32::MAX {
        lemma_known_grow(v, temps, dst.0);
        lemma_known_forget(grown(v, dst.0), temps, dst);
    }
}

/// `n` is `o` after the pass where the facts it rests on are the constant
/// temps `temps0` of the original context (`temps` those of the result):
/// a branch on two constant temps becomes `br` to its label when the
/// comparison holds and `nop` when not; a foldable binary op on two constant
/// temps becomes `mov` of a constant temp holding its value; `0 - x` never
/// stays a subtraction.
pub open spec fn const_folded(n: Op, o: Op, temps0: Seq<crate::temp::Temp>, temps: Seq<crate::temp::Temp>) -> bool {
    let m = spec_type_mask(o.op_type);
    &&& (o.opc is BrCond && is_const_temp(temps0, o.args@[0]) && is_const_temp(temps0, o.args@[1])) ==> if crate::backend::fold::spec_eval_cond(
        temps0[o.args@[0].0 as int].val,
        temps0[o.args@[1].0 as int].val,
        crate::backend::fold::spec_cond_from_carg(o.args@[2]),
        o.op_type,
    ) {
        n.opc is Br && n.nargs == 1 && n.args@[0] == o.args@[3]
    } else {
        n.opc is Nop && n.nargs == 0
    }
    &&& (is_foldable_binary(o.opc) && is_const_temp(temps0, o.args@[1]) && is_const_temp(temps0, o.args@[2])
        && crate::backend::fold::spec_eval_binary(
        o.opc,
        temps0[o.args@[1].0 as int].val & m,
        temps0[o.args@[2].0 as int].val & m,
        o.op_type,
    ) is Some) ==> {
        let v = crate::backend::fold::spec_eval_binary(
            o.opc,
            temps0[o.args@[1].0 as int].val & m,
            temps0[o.args@[2].0 as int].val & m,
            o.op_type,
        )->0;
        &&& n.opc is Mov
        &&& n.nargs == 2
        &&& n.args@[0] == o.args@[0]
        &&& is_const_temp(temps, n.args@[1])
        &&& temps[n.args@[1].0 as int].val == v & m
    }
    &&& (o.opc is Sub && is_const_temp(temps0, o.args@[1]) && temps0[o.args@[1].0 as int].val & m == 0) ==> ((n.opc is Neg
        || n.opc is Mov) && n.args@[0] == o.args@[0])
}

/// Every op that has an output writes a non-constant temp of `ctx`.
pub open spec fn outputs_plain(ctx: &Context) -> bool {
    forall|k: int|
        0 <= k < ctx.ops_view().len() && (#[trigger] ctx.ops_view()[k]).opc.spec_def().nb_oargs > 0 ==> plain_out(
            ctx,
            ctx.ops_view()[k].args@[0],
        )
}

/// What is known of temp `t` (nothing when out of range).
fn ti(info: &Vec<TempInfo>, t: TempIdx) -> (r: TempInfo)
    ensures
        (t.0 as int) < info@.len() ==> r == info@[t.0 as int],
        (t.0 as int) >= info@.len() ==> !r.is_const && r.copy_of is None,
{
    let i = t.0 as usize;
    if i < info.len() {
        info[i]
    } else {
        TempInfo::unknown()
    }
}

/// The temp that `t` is a copy of, if one is known.
fn resolve_copy(info: &Vec<TempInfo>, t: TempIdx) -> (r: Option<TempIdx>)
    ensures
        r == (if (t.0 as int) < info@.len() {
            info@[t.0 as int].copy_of
        } else {
            None
        }),
{
    let i = t.0 as usize;
    if i < info.len() {
        info[i].copy_of
    } else {
        None
    }
}

/// Forget every copy relation (at a block boundary).
fn reset_copies(info: &mut Vec<TempInfo>)
    ensures
        final(info)@.len() == old(info)@.len(),
        forall|i: int|
            #![trigger final(info)@[i]]
            0 <= i < final(info)@.len() ==> final(info)@[i].copy_of is None
                && final(info)@[i].is_const == old(info)@[i].is_const && final(info)@[i].val == old(
                info,
            )@[i].val,
{
    let mut i: usize = 0;
    while i < info.len()
        invariant
            i <= info@.len() == old(info)@.len(),
            forall|j: int|
                #![trigger info@[j]]
                0 <= j < info@.len() ==> info@[j].is_const == old(info)@[j].is_const
                    && info@[j].val == old(info)@[j].val && (j < i ==> info@[j].copy_of is None),
        decreases info@.len() - i,
    {
        let mut t = info[i];
        t.copy_of = None;
        info.set(i, t);
        i = i + 1;
    }
}

/// Grow the table so that it covers temp `idx`.
fn ensure_info(info: &mut Vec<TempInfo>, idx: u32)
    requires
        idx < u32::MAX,
    ensures
        final(info)@.len() == if (idx as int) < old(info)@.len() {
            old(info)@.len() as int
        } else {
            idx + 1
        },
        forall|i: int| 0 <= i < old(info)@.len() ==> #[trigger] final(info)@[i] == old(info)@[i],
        forall|i: int|
            #![trigger final(info)@[i]]
            old(info)@.len() <= i < final(info)@.len() ==> final(info)@[i] == unknown_info(),
{
    while info.len() <= idx as usize
        invariant
            idx < u32::MAX,
            old(info)@.len() <= info@.len(),
            info@.len() <= (if (idx as int) < old(info)@.len() {
                old(info)@.len() as int
            } else {
                idx + 1
            }),
            forall|i: int| 0 <= i < old(info)@.len() ==> #[trigger] info@[i] == old(info)@[i],
            forall|i: int|
                #![trigger info@[i]]
                old(info)@.len() <= i < info@.len() ==> info@[i] == unknown_info(),
        decreases idx + 1 - info@.len(),
    {
        info.push(TempInfo::unknown());
    }
}

/// Forget every copy relation that points at `t`.
fn clear_copies_of(info: &mut Vec<TempInfo>, t: TempIdx)
    ensures
        final(info)@.len() == old(info)@.len(),
        forall|i: int|
            0 <= i < final(info)@.len() ==> {
                let n = #[trigger] final(info)@[i];
                let o = old(info)@[i];
                &&& n.is_const == o.is_const
                &&& n.val == o.val
                &&& n.copy_of == (if o.copy_of == Some(t) {
                    None
                } else {
                    o.copy_of
                })
            },
{
    let mut i: usize = 0;
    while i < info.len()
        invariant
            i <= info@.len() == old(info)@.len(),
            forall|j: int|
                0 <= j < info@.len() ==> {
                    let n = #[trigger] info@[j];
                    let o = old(info)@[j];
                    &&& n.is_const == o.is_const
                    &&& n.val == o.val
                    &&& n.copy_of == (if j < i && o.copy_of == Some(t) {
                        None
                    } else {
                        o.copy_of
                    })
                },
        decreases info@.len() - i,
    {
        let mut e = info[i];
        if e.copy_of == Some(t) {
            e.copy_of = None;
            info.set(i, e);
        }
        i = i + 1;
    }
}

/// `dst` is redefined: forget what was known of it and every copy of it.
fn invalidate_one(info: &mut Vec<TempInfo>, dst: TempIdx)
    ensures
        final(info)@ == (if dst.0 == u32::MAX {
            old(info)@
        } else {
            forget(grown(old(info)@, dst.0), dst)
        }),
{
    if dst.0 == u32::MAX {
        // no context holds a temp with this index
        return;
    }
    let i = dst.0 as usize;
    ensure_info(info, dst.0);
    assert(info@ =~= grown(old(info)@, dst.0));
    let ghost g = info@;
    let mut e = info[i];
    e.is_const = false;
    e.copy_of = None;
    info.set(i, e);
    clear_copies_of(info, dst);
    assert(info@ =~= forget(g, dst));
}

/// Forget what was known of the outputs of an op the pass does not fold.
fn invalidate_outputs(info: &mut Vec<TempInfo>, def: OpDef, args: [TempIdx; 10], ctx: &Context)
    requires
        def.nb_oargs <= 10,
    ensures
        final(info)@ == forget_outputs(old(info)@, args@, def.nb_oargs as int, ctx.temps_view()),
{
    let n = def.nb_oargs as usize;
    let mut k: usize = 0;
    while k < n
        invariant
            n <= 10,
            n == def.nb_oargs,
            k <= n,
            info@ == forget_outputs(old(info)@, args@, k as int, ctx.temps_view()),
            info@.len() == old(info)@.len(),
        decreases n - k,
    {
        let ghost w = info@;
        let t = args[k];
        let idx = t.0 as usize;
        if idx < info.len() && idx < ctx.temps.len() && !ctx.temps[idx].is_const() {
            let mut e = info[idx];
            e.is_const = false;
            e.copy_of = None;
            info.set(idx, e);
            clear_copies_of(info, t);
            assert(info@ =~= forget(w, t));
        }
        k = k + 1;
    }
}

/// Record that `dst` holds `val`.
fn set_const(info: &mut Vec<TempInfo>, dst: TempIdx, val: u64)
    ensures
        final(info)@ == with_const(old(info)@, dst, val),
{
    if dst.0 == u32::MAX {
        // no context holds a temp with this index
        return;
    }
    let i = dst.0 as usize;
    ensure_info(info, dst.0);
    assert(info@ =~= grown(old(info)@, dst.0));
    info.set(i, TempInfo { is_const: true, val, copy_of: None });
}

/// Record that `dst` holds what `src` holds.
fn set_copy(info: &mut Vec<TempInfo>, dst: TempIdx, src: TempIdx)
    ensures
        final(info)@ == with_copy(old(info)@, dst, src),
{
    if dst.0 == u32::MAX {
        // no context holds a temp with this index
        return;
    }
    let i = dst.0 as usize;
    ensure_info(info, dst.0);
    assert(info@ =~= grown(old(info)@, dst.0));
    let si = ti(info, src);
    if si.is_const {
        info.set(i, TempInfo { is_const: true, val: si.val, copy_of: None });
    } else {
        info.set(i, TempInfo { is_const: false, val: info[i].val, copy_of: Some(src) });
    }
}

/// `new` is `old` with only constant temps added (and its ops unchanged).
pub open spec fn grows_by_consts(new: &Context, old: &Context) -> bool {
    &&& new.wf()
    &&& new.labels_view() == old.labels_view()
    &&& new.spec_nb_globals() == old.spec_nb_globals()
    &&& new.same_settings(old)
    &&& old.temps_view().len() <= new.temps_view().len()
    &&& new.temps_view().subrange(0, old.temps_view().len() as int) == old.temps_view()
    &&& forall|i: int|
        old.temps_view().len() <= i < new.temps_view().len() ==> (#[trigger] new.temps_view()[i]).kind
            is Const
}

proof fn lemma_grows_trans(c: &Context, b: &Context, a: &Context)
    requires
        grows_by_consts(c, b),
        grows_by_consts(b, a),
    ensures
        grows_by_consts(c, a),
{
    assert(c.temps_view().subrange(0, a.temps_view().len() as int) =~= b.temps_view().subrange(
        0,
        a.temps_view().len() as int,
    ));
    assert forall|i: int| a.temps_view().len() <= i < c.temps_view().len() implies (
    #[trigger] c.temps_view()[i]).kind is Const by {
        if i < b.temps_view().len() {
            assert(c.temps_view()[i] == c.temps_view().subrange(0, b.temps_view().len() as int)[i]);
        }
    }
}

/// `n` is `o` but for its opcode and first two arguments and their count.
pub open spec fn same_frame(n: Op, o: Op) -> bool {
    &&& n.idx == o.idx
    &&& n.op_type == o.op_type
    &&& n.param1 == o.param1
    &&& n.param2 == o.param2
    &&& n.life == o.life
    &&& n.output_pref == o.output_pref
    &&& forall|k: int| 2 <= k < 10 ==> #[trigger] n.args@[k] == o.args@[k]
}

/// Turn `op` into `mov dst, c` for the constant temp `c` of `val` truncated
/// to `ty`.
fn replace_with_const(ctx: &mut Context, info: &mut Vec<TempInfo>, op: &mut Op, dst: TempIdx, val: u64, ty: Type)
    requires
        old(ctx).wf(),
        old(ctx).temps_view().len() + 1 < u32::MAX,
    ensures
        grows_by_consts(final(ctx), old(ctx)),
        final(ctx).ops_view() == old(ctx).ops_view(),
        final(ctx).temps_view().len() <= old(ctx).temps_view().len() + 1,
        final(ctx).const_of(ty, val & spec_type_mask(ty)) == Some(final(op).args@[1]),
        final(op).opc == Opcode::Mov,
        final(op).args@[0] == dst,
        final(op).nargs == 2,
        same_frame(*final(op), *old(op)),
        facts_kept(old(ctx), old(info)@, final(ctx), final(info)@, dst),
{
    let masked = val & type_mask(ty);
    let ghost oc = *ctx;
    let c = ctx.new_const(ty, masked);
    let ghost premise = consts_ok(&oc) && consts_known(old(info)@, oc.temps_view()) && plain_out(&oc, dst);
    proof {
        if premise {
            if oc.const_of(ty, masked) is Some {
                lemma_find_const_ok(oc.consts_view(), oc.temps_view(), ty, masked);
            } else {
                assert forall|k: int| 0 <= k < ctx.consts_view().len() implies entry_ok(ctx.temps_view(), #[trigger] ctx.consts_view()[k]) by {
                    if k < oc.consts_view().len() {
                        assert(ctx.consts_view()[k] == oc.consts_view()[k]);
                        assert(entry_ok(oc.temps_view(), oc.consts_view()[k]));
                        assert(ctx.temps_view()[oc.consts_view()[k].idx.0 as int] == ctx.temps_view().subrange(0, oc.temps_view().len() as int)[oc.consts_view()[k].idx.0 as int]);
                    }
                }
            }
            assert(consts_ok(ctx));
            assert(entry_ok(ctx.temps_view(), crate::context::ConstEntry { ty, val: masked, idx: c }));
        }
    }
    let ghost i0 = info@;
    if c.0 < u32::MAX {
        ensure_info(info, c.0);
        info.set(c.0 as usize, TempInfo { is_const: true, val: masked, copy_of: None });
    }
    proof {
        if premise {
            assert forall|i: int|
                0 <= i < ctx.temps_view().len() && (#[trigger] ctx.temps_view()[i]).kind is Const implies i < info@.len()
                    && info@[i] == const_rec(ctx.temps_view()[i]) by {
                if i != c.0 {
                    assert(i < oc.temps_view().len());
                    assert(ctx.temps_view()[i] == ctx.temps_view().subrange(0, oc.temps_view().len() as int)[i]);
                    assert(oc.temps_view()[i] == ctx.temps_view()[i]);
                    assert(i0[i] == const_rec(oc.temps_view()[i]));
                }
            }
            assert(!is_const_temp(ctx.temps_view(), dst)) by {
                assert(ctx.temps_view()[dst.0 as int] == ctx.temps_view().subrange(0, oc.temps_view().len() as int)[dst.0 as int]);
            }
            lemma_known_with_const(info@, ctx.temps_view(), dst, masked);
        }
    }
    op.opc = Opcode::Mov;
    op.args[0] = dst;
    op.args[1] = c;
    op.nargs = 2;
    set_const(info, dst, masked);
    assert(final(ctx).temps_view().subrange(0, old(ctx).temps_view().len() as int) =~= old(ctx).temps_view());
}

/// Turn `op` into `mov dst, src`.
fn replace_with_mov(info: &mut Vec<TempInfo>, op: &mut Op, dst: TempIdx, src: TempIdx)
    ensures
        final(op).opc == Opcode::Mov,
        final(op).args@[0] == dst,
        final(op).args@[1] == src,
        final(op).nargs == 2,
        same_frame(*final(op), *old(op)),
        final(info)@ == (if dst.0 == u32::MAX {
            old(info)@
        } else {
            forget(grown(old(info)@, dst.0), dst)
        }),
{
    op.opc = Opcode::Mov;
    op.args[0] = dst;
    op.args[1] = src;
    op.nargs = 2;
    // Only `dst` is forgotten: the copy relation is not recorded, since the
    // source may be redefined later in the block.
    invalidate_one(info, dst);
}

/// Apply the rewrite `rw` of a binary op with output `dst` and operands
/// `a`, `b`.
fn apply_rewrite(
    ctx: &mut Context,
    info: &mut Vec<TempInfo>,
    op: &mut Op,
    rw: Rewrite,
    dst: TempIdx,
    a: TempIdx,
    b: TempIdx,
    ty: Type,
)
    requires
        old(ctx).wf(),
        old(ctx).temps_view().len() + 1 < u32::MAX,
    ensures
        grows_by_consts(final(ctx), old(ctx)),
        final(ctx).ops_view() == old(ctx).ops_view(),
        final(ctx).temps_view().len() <= old(ctx).temps_view().len() + 1,
        rewrite_done(*final(op), *old(op), rw, dst, a, b, ty, final(ctx)),
        facts_kept(old(ctx), old(info)@, final(ctx), final(info)@, dst),
{
    proof {
        if consts_ok(old(ctx)) && consts_known(old(info)@, old(ctx).temps_view()) && plain_out(old(ctx), dst) {
            lemma_known_invalidate(old(info)@, old(ctx).temps_view(), dst);
        }
    }
    match rw {
        Rewrite::Const(v) => replace_with_const(ctx, info, op, dst, v, ty),
        Rewrite::MovA => replace_with_mov(info, op, dst, a),
        Rewrite::MovB => replace_with_mov(info, op, dst, b),
        Rewrite::NegB => {
            op.opc = Opcode::Neg;
            op.args[0] = dst;
            op.args[1] = b;
            op.nargs = 2;
            invalidate_one(info, dst);
        },
        Rewrite::Keep => invalidate_one(info, dst),
    }
    assert(final(ctx).temps_view().subrange(0, old(ctx).temps_view().len() as int) =~= old(ctx).temps_view());
}

/// `n` is `o` after the rewrite `rw` with output `dst`, operands `a`, `b`:
/// `mov dst, c` with `c` the constant temp of the value, `mov dst, a`,
/// `mov dst, b`, `neg dst, b`, or `o` itself.
pub open spec fn rewrite_done(n: Op, o: Op, rw: Rewrite, dst: TempIdx, a: TempIdx, b: TempIdx, ty: Type, ctx: &Context) -> bool {
    match rw {
        Rewrite::Keep => n == o,
        Rewrite::Const(v) => {
            &&& n.opc == Opcode::Mov
            &&& n.args@[0] == dst
            &&& ctx.const_of(ty, v & spec_type_mask(ty)) == Some(n.args@[1])
            &&& n.nargs == 2
            &&& same_frame(n, o)
        },
        Rewrite::MovA => n.opc == Opcode::Mov && n.args@[0] == dst && n.args@[1] == a && n.nargs == 2
            && same_frame(n, o),
        Rewrite::MovB => n.opc == Opcode::Mov && n.args@[0] == dst && n.args@[1] == b && n.nargs == 2
            && same_frame(n, o),
        Rewrite::NegB => n.opc == Opcode::Neg && n.args@[0] == dst && n.args@[1] == b && n.nargs == 2
            && same_frame(n, o),
    }
}

/// The constant known for temp `t`, if any.
pub open spec fn known(info: Seq<TempInfo>, t: TempIdx) -> Option<u64> {
    if (t.0 as int) < info.len() && info[t.0 as int].is_const {
        Some(info[t.0 as int].val)
    } else {
        None
    }
}

fn known_exec(info: &Vec<TempInfo>, t: TempIdx) -> (r: Option<u64>)
    ensures
        r == known(info@, t),
{
    let i = ti(info, t);
    if i.is_const {
        Some(i.val)
    } else {
        None
    }
}

/// The algebraic identities with one known operand: apply the one that
/// holds, if any, and say whether one did.
fn try_simplify(
    ctx: &mut Context,
    info: &mut Vec<TempInfo>,
    op: &mut Op,
    opc: Opcode,
    dst: TempIdx,
    a_idx: TempIdx,
    b_idx: TempIdx,
    ai: Option<u64>,
    bi: Option<u64>,
    ty: Type,
) -> (r: bool)
    requires
        old(ctx).wf(),
        old(ctx).temps_view().len() + 1 < u32::MAX,
    ensures
        r == (crate::backend::fold::spec_simplify(opc, ty, ai, bi) != Rewrite::Keep),
        r ==> rewrite_done(*final(op), *old(op), crate::backend::fold::spec_simplify(opc, ty, ai, bi), dst, a_idx, b_idx, ty, final(ctx)),
        !r ==> *final(op) == *old(op) && *final(ctx) == *old(ctx) && final(info)@ == old(info)@,
        facts_kept(old(ctx), old(info)@, final(ctx), final(info)@, dst),
        grows_by_consts(final(ctx), old(ctx)),
        final(ctx).ops_view() == old(ctx).ops_view(),
        final(ctx).temps_view().len() <= old(ctx).temps_view().len() + 1,
{
    let rw = crate::backend::fold::simplify_rule(opc, ty, ai, bi);
    if rw == Rewrite::Keep {
        proof {
            assert(old(ctx).temps_view().subrange(0, old(ctx).temps_view().len() as int) =~= old(ctx).temps_view());
        }
        return false;
    }
    apply_rewrite(ctx, info, op, rw, dst, a_idx, b_idx, ty);
    true
}

/// Fold a binary op: to its value when both operands are known, else by an
/// identity with one known operand or with equal operands.
fn fold_binary(ctx: &mut Context, info: &mut Vec<TempInfo>, op: &mut Op, opc: Opcode, ty: Type)
    requires
        old(ctx).wf(),
        old(ctx).temps_view().len() + 1 < u32::MAX,
    ensures
        grows_by_consts(final(ctx), old(ctx)),
        final(ctx).ops_view() == old(ctx).ops_view(),
        final(ctx).temps_view().len() <= old(ctx).temps_view().len() + 1,
        rewrite_done(
            *final(op),
            *old(op),
            spec_fold_binary(
                opc,
                ty,
                known(old(info)@, old(op).args@[1]),
                known(old(info)@, old(op).args@[2]),
                old(op).args@[1] == old(op).args@[2],
            ),
            old(op).args@[0],
            old(op).args@[1],
            old(op).args@[2],
            ty,
            final(ctx),
        ),
        facts_kept(old(ctx), old(info)@, final(ctx), final(info)@, old(op).args@[0]),
{
    let dst = op.args[0];
    let a_idx = op.args[1];
    let b_idx = op.args[2];
    let ai = known_exec(info, a_idx);
    let bi = known_exec(info, b_idx);
    let rw = fold_binary_rule(opc, ty, ai, bi, a_idx == b_idx);
    apply_rewrite(ctx, info, op, rw, dst, a_idx, b_idx, ty);
}

/// Fold `neg`/`not` of a known constant.
fn fold_unary(ctx: &mut Context, info: &mut Vec<TempInfo>, op: &mut Op, opc: Opcode, ty: Type)
    requires
        old(ctx).wf(),
        old(ctx).temps_view().len() + 1 < u32::MAX,
        opc is Neg || opc is Not,
    ensures
        grows_by_consts(final(ctx), old(ctx)),
        final(ctx).ops_view() == old(ctx).ops_view(),
        final(ctx).temps_view().len() <= old(ctx).temps_view().len() + 1,
        match known(old(info)@, old(op).args@[1]) {
            None => *final(op) == *old(op),
            Some(v) => rewrite_done(
                *final(op),
                *old(op),
                Rewrite::Const(
                    if opc is Neg {
                        vstd::wrapping::u64_specs::wrapping_sub(0, v) & spec_type_mask(ty)
                    } else {
                        !v & spec_type_mask(ty)
                    },
                ),
                old(op).args@[0],
                old(op).args@[1],
                old(op).args@[2],
                ty,
                final(ctx),
            ),
        },
        facts_kept(old(ctx), old(info)@, final(ctx), final(info)@, old(op).args@[0]),
{
    let dst = op.args[0];
    let src = op.args[1];
    let si = known_exec(info, src);
    match si {
        None => {
            proof {
                if consts_ok(old(ctx)) && consts_known(old(info)@, old(ctx).temps_view()) && plain_out(old(ctx), dst) {
                    lemma_known_invalidate(old(info)@, old(ctx).temps_view(), dst);
                }
            }
            invalidate_one(info, dst);
            assert(old(ctx).temps_view().subrange(0, old(ctx).temps_view().len() as int) =~= old(ctx).temps_view());
        },
        Some(v) => {
            let mask = type_mask(ty);
            let val = if opc == Opcode::Neg {
                0u64.wrapping_sub(v) & mask
            } else {
                !v & mask
            };
            apply_rewrite(ctx, info, op, Rewrite::Const(val), dst, dst, dst, ty);
            proof {
                lemma_mask_idem(val, ty);
            }
        },
    }
}

proof fn lemma_mask_idem(v: u64, ty: Type)
    ensures
        (v & spec_type_mask(ty)) & spec_type_mask(ty) == v & spec_type_mask(ty),
{
    let m = spec_type_mask(ty);
    assert(m == 0xFFFF_FFFFu64 || m == 0xFFFF_FFFF_FFFF_FFFFu64);
    crate::backend::fold::lemma_mask_twice(v, m);
}

/// The value of a width conversion of `v`.
pub open spec fn spec_ext_value(opc: Opcode, v: u64) -> u64 {
    match opc {
        Opcode::ExtI32I64 => (((v as u32) as i32) as i64) as u64,
        Opcode::ExtUI32I64 | Opcode::ExtrlI64I32 => v & 0xFFFF_FFFFu64,
        _ => (v >> 32u64) & 0xFFFF_FFFFu64,
    }
}

/// The type of a width conversion's result.
pub open spec fn spec_ext_type(opc: Opcode) -> Type {
    if opc is ExtI32I64 || opc is ExtUI32I64 {
        Type::I64
    } else {
        Type::I32
    }
}

/// Fold a width conversion of a known constant.
fn fold_ext(ctx: &mut Context, info: &mut Vec<TempInfo>, op: &mut Op, opc: Opcode)
    requires
        old(ctx).wf(),
        old(ctx).temps_view().len() + 1 < u32::MAX,
        matches!(opc, Opcode::ExtI32I64 | Opcode::ExtUI32I64 | Opcode::ExtrlI64I32 | Opcode::ExtrhI64I32),
    ensures
        grows_by_consts(final(ctx), old(ctx)),
        final(ctx).ops_view() == old(ctx).ops_view(),
        final(ctx).temps_view().len() <= old(ctx).temps_view().len() + 1,
        match known(old(info)@, old(op).args@[1]) {
            None => *final(op) == *old(op),
            Some(v) => rewrite_done(
                *final(op),
                *old(op),
                Rewrite::Const(spec_ext_value(opc, v)),
                old(op).args@[0],
                old(op).args@[1],
                old(op).args@[2],
                spec_ext_type(opc),
                final(ctx),
            ),
        },
        facts_kept(old(ctx), old(info)@, final(ctx), final(info)@, old(op).args@[0]),
{
    let dst = op.args[0];
    let src = op.args[1];
    match known_exec(info, src) {
        None => {
            proof {
                if consts_ok(old(ctx)) && consts_known(old(info)@, old(ctx).temps_view()) && plain_out(old(ctx), dst) {
                    lemma_known_invalidate(old(info)@, old(ctx).temps_view(), dst);
                }
            }
            invalidate_one(info, dst);
            assert(old(ctx).temps_view().subrange(0, old(ctx).temps_view().len() as int) =~= old(ctx).temps_view());
        },
        Some(v) => {
            let val = match opc {
                Opcode::ExtI32I64 => (((v as u32) as i32) as i64) as u64,
                Opcode::ExtUI32I64 | Opcode::ExtrlI64I32 => v & 0xFFFF_FFFF,
                _ => (v >> 32) & 0xFFFF_FFFF,
            };
            let out_ty = match opc {
                Opcode::ExtI32I64 | Opcode::ExtUI32I64 => Type::I64,
                _ => Type::I32,
            };
            apply_rewrite(ctx, info, op, Rewrite::Const(val), dst, dst, dst, out_ty);
        },
    }
}

/// A `mov`: record that its output holds the source's constant, or is a copy
/// of the source.
fn fold_mov(info: &mut Vec<TempInfo>, op: &Op, ty: Type)
    ensures
        final(info)@ == (if info_at(old(info)@, op.args@[1].0 as int).is_const {
            with_const(old(info)@, op.args@[0], info_at(old(info)@, op.args@[1].0 as int).val & spec_type_mask(ty))
        } else {
            with_copy(old(info)@, op.args@[0], op.args@[1])
        }),
{
    let dst = op.args[0];
    let src = op.args[1];
    let si = ti(info, src);
    if si.is_const {
        set_const(info, dst, si.val & type_mask(ty));
    } else {
        set_copy(info, dst, src);
    }
}

/// A conditional branch on two known constants becomes `br` to its label
/// when taken, `nop` when not.
fn fold_brcond(info: &Vec<TempInfo>, op: &mut Op, ty: Type)
    ensures
        match (known(info@, old(op).args@[0]), known(info@, old(op).args@[1])) {
            (Some(a), Some(b)) => if crate::backend::fold::spec_eval_cond(
                a,
                b,
                crate::backend::fold::spec_cond_from_carg(old(op).args@[2]),
                ty,
            ) {
                final(op).opc is Br && final(op).nargs == 1 && final(op).args@[0] == old(op).args@[3]
                    && forall|k: int| 1 <= k < 10 ==> #[trigger] final(op).args@[k] == old(op).args@[k]
            } else {
                final(op).opc is Nop && final(op).nargs == 0 && final(op).args == old(op).args
            },
            _ => *final(op) == *old(op),
        },
        final(op).idx == old(op).idx,
        final(op).op_type == old(op).op_type,
        final(op).life == old(op).life,
        final(op).output_pref == old(op).output_pref,
        final(op).param1 == old(op).param1,
        final(op).param2 == old(op).param2,
{
    let ai = known_exec(info, op.args[0]);
    let bi = known_exec(info, op.args[1]);
    if let (Some(a), Some(b)) = (ai, bi) {
        let cond = cond_from_carg(op.args[2]);
        if eval_cond(a, b, cond, ty) {
            op.opc = Opcode::Br;
            op.args[0] = op.args[3];
            op.nargs = 1;
        } else {
            op.opc = Opcode::Nop;
            op.nargs = 0;
        }
    }
}

fn resets(opc: Opcode) -> (r: bool)
    ensures
        r == resets_knowledge(opc),
{
    matches!(opc, Opcode::SetLabel | Opcode::Br | Opcode::ExitTb | Opcode::GotoTb | Opcode::GotoPtr
        | Opcode::Call)
}

fn is_binary(opc: Opcode) -> (r: bool)
    ensures
        r == is_foldable_binary(opc),
{
    matches!(opc, Opcode::Add | Opcode::Sub | Opcode::Mul | Opcode::And | Opcode::Or | Opcode::Xor
        | Opcode::AndC | Opcode::Shl | Opcode::Shr | Opcode::Sar | Opcode::RotL | Opcode::RotR)
}

/// Copy propagation: replace each input of `op` that is a known copy by its
/// source.
fn propagate_copies(info: &Vec<TempInfo>, op: &mut Op, start: usize, end: usize)
    requires
        start <= end <= 10,
    ensures
        final(op).opc == old(op).opc,
        final(op).nargs == old(op).nargs,
        final(op).idx == old(op).idx,
        final(op).op_type == old(op).op_type,
        final(op).life == old(op).life,
        final(op).output_pref == old(op).output_pref,
        final(op).param1 == old(op).param1,
        final(op).param2 == old(op).param2,
        forall|k: int| 0 <= k < 10 && !(start <= k < end) ==> #[trigger] final(op).args@[k] == old(op).args@[k],
        forall|k: int| start <= k < end ==> #[trigger] final(op).args@[k] == copy_source(info@, old(op).args@[k]),
{
    let mut k: usize = start;
    while k < end
        invariant
            start <= k <= end <= 10,
            op.opc == old(op).opc,
            op.nargs == old(op).nargs,
            op.idx == old(op).idx,
            op.op_type == old(op).op_type,
            op.life == old(op).life,
            op.output_pref == old(op).output_pref,
            op.param1 == old(op).param1,
            op.param2 == old(op).param2,
            forall|j: int| 0 <= j < 10 && !(start <= j < end) ==> #[trigger] op.args@[j] == old(op).args@[j],
            forall|j: int| k <= j < end ==> #[trigger] op.args@[j] == old(op).args@[j],
            forall|j: int| start <= j < k ==> #[trigger] op.args@[j] == copy_source(info@, old(op).args@[j]),
        decreases end - k,
    {
        if let Some(src) = resolve_copy(info, op.args[k]) {
            op.args[k] = src;
        }
        k = k + 1;
    }
}

/// Single forward pass over the ops of `ctx` within each basic block:
/// constant folding, copy propagation and algebraic simplification. Folded
/// ops become `mov`s of new constant temps (or of an operand), `0 - x`
/// becomes `neg x`, and a branch on constants becomes `br` or `nop`.
pub fn optimize(ctx: &mut Context)
    requires
        old(ctx).wf(),
        old(ctx).temps_view().len() + old(ctx).ops_view().len() + 1 < u32::MAX,
    ensures
        grows_by_consts(final(ctx), old(ctx)),
        final(ctx).ops_view().len() == old(ctx).ops_view().len(),
        final(ctx).temps_view().len() <= old(ctx).temps_view().len() + old(ctx).ops_view().len(),
        forall|k: int|
            0 <= k < old(ctx).ops_view().len() ==> rewritten(
                #[trigger] final(ctx).ops_view()[k],
                old(ctx).ops_view()[k],
            ),
        forall|k: int|
            0 <= k < old(ctx).ops_view().len() && (resets_knowledge(old(ctx).ops_view()[k].opc) || not_optimized(
                old(ctx).ops_view()[k].opc,
            )) ==> #[trigger] final(ctx).ops_view()[k] == old(ctx).ops_view()[k],
        consts_ok(old(ctx)) && outputs_plain(old(ctx)) ==> forall|k: int|
            0 <= k < old(ctx).ops_view().len() ==> const_folded(
                #[trigger] final(ctx).ops_view()[k],
                old(ctx).ops_view()[k],
                old(ctx).temps_view(),
                final(ctx).temps_view(),
            ),
{
    let n_temps = ctx.temps.len();
    let mut info: Vec<TempInfo> = Vec::new();
    let mut i: usize = 0;
    while i < n_temps
        invariant
            i <= n_temps == ctx.temps@.len(),
            info@.len() == i,
            forall|j: int| 0 <= j < i && (#[trigger] ctx.temps_view()[j]).kind is Const ==> info@[j] == const_rec(ctx.temps_view()[j]),
        decreases n_temps - i,
    {
        let t = &ctx.temps[i];
        if t.is_const() {
            info.push(TempInfo { is_const: true, val: t.val, copy_of: None });
        } else {
            info.push(TempInfo::unknown());
        }
        i = i + 1;
    }
    let num_ops = ctx.ops.len();
    let ghost ops0 = old(ctx).ops_view();
    let ghost temps0 = old(ctx).temps_view();
    let ghost premise = consts_ok(old(ctx)) && outputs_plain(old(ctx));
    let mut oi: usize = 0;
    assert(ctx.temps_view().subrange(0, ctx.temps_view().len() as int) =~= ctx.temps_view());
    proof {
        lemma_flags_of_folded_ops();
    }
    while oi < num_ops
        invariant
            oi <= num_ops == ops0.len(),
            ops0 == old(ctx).ops_view(),
            temps0 == old(ctx).temps_view(),
            premise == (consts_ok(old(ctx)) && outputs_plain(old(ctx))),
            old(ctx).temps_view().len() + ops0.len() + 1 < u32::MAX,
            grows_by_consts(ctx, old(ctx)),
            ctx.ops_view().len() == ops0.len(),
            ctx.temps_view().len() <= old(ctx).temps_view().len() + oi,
            forall|k: int| 0 <= k < oi ==> rewritten(#[trigger] ctx.ops_view()[k], ops0[k]),
            forall|k: int|
                0 <= k < oi && (resets_knowledge(ops0[k].opc) || not_optimized(ops0[k].opc)) ==> #[trigger] ctx.ops_view()[k]
                    == ops0[k],
            forall|k: int| oi <= k < ops0.len() ==> #[trigger] ctx.ops_view()[k] == ops0[k],
            premise ==> consts_ok(ctx) && consts_known(info@, ctx.temps_view()),
            premise ==> forall|k: int| 0 <= k < oi ==> const_folded(#[trigger] ctx.ops_view()[k], ops0[k], temps0, ctx.temps_view()),
            (0x10u16 & crate::opcode::FLAG_SIDE_EFFECTS) != crate::opcode::FLAG_SIDE_EFFECTS,
            (0x10u16 & crate::opcode::FLAG_VECTOR) != crate::opcode::FLAG_VECTOR,
            (0x92u16 & crate::opcode::FLAG_SIDE_EFFECTS) != crate::opcode::FLAG_SIDE_EFFECTS,
            (0x92u16 & crate::opcode::FLAG_VECTOR) != crate::opcode::FLAG_VECTOR,
        decreases num_ops - oi,
    {
        let ghost ctx_before = *ctx;
        let ghost info_before = info@;
        let mut op = ctx.ops[oi];
        let opc = op.opc;
        let def = opc.def();
        proof {
            lemma_opcode_arg_counts(opc);
        }
        if resets(opc) {
            invalidate_outputs(&mut info, def, op.args, ctx);
            proof {
                if premise {
                    lemma_known_forget_outputs(info_before, op.args@, def.nb_oargs as int, ctx.temps_view());
                }
            }
            let ghost info_mid = info@;
            reset_copies(&mut info);
            proof {
                if premise {
                    assert forall|j: int|
                        0 <= j < ctx.temps_view().len() && (#[trigger] ctx.temps_view()[j]).kind is Const implies j < info@.len()
                            && info@[j] == const_rec(ctx.temps_view()[j]) by {
                        assert(info_mid[j] == const_rec(ctx.temps_view()[j]));
                    }
                }
            }
            oi = oi + 1;
            continue;
        }
        if def.flags.contains(OpFlags::side_effects()) || def.flags.contains(OpFlags::vector()) || opc
            == Opcode::Nop || opc == Opcode::InsnStart || opc == Opcode::Discard {
            invalidate_outputs(&mut info, def, op.args, ctx);
            proof {
                if premise {
                    lemma_known_forget_outputs(info_before, op.args@, def.nb_oargs as int, ctx.temps_view());
                }
            }
            oi = oi + 1;
            continue;
        }
        let start = def.nb_oargs as usize;
        let end = start + def.nb_iargs as usize;
        propagate_copies(&info, &mut op, start, end);
        let ghost op1 = op;
        assert(same_but_inputs(op1, ops0[oi as int]));
        let ghost o = ops0[oi as int];
        let ghost plain = premise ==> (o.opc.spec_def().nb_oargs > 0 ==> plain_out(ctx, o.args@[0]));
        proof {
            if premise {
                assert(o == old(ctx).ops_view()[oi as int]);
                if o.opc.spec_def().nb_oargs > 0 {
                    assert(plain_out(old(ctx), o.args@[0]));
                    assert(ctx.temps_view()[o.args@[0].0 as int] == ctx.temps_view().subrange(0, temps0.len() as int)[o.args@[0].0 as int]);
                }
                // Inputs that are constant temps of the original context stay as they are.
                assert forall|k: int| start <= k < end && is_const_temp(temps0, #[trigger] o.args@[k]) implies op1.args@[k] == o.args@[k] by {
                    let t = o.args@[k];
                    assert(ctx.temps_view()[t.0 as int] == ctx.temps_view().subrange(0, temps0.len() as int)[t.0 as int]);
                    assert(info@[t.0 as int] == const_rec(ctx.temps_view()[t.0 as int]));
                }
            }
        }
        let ty = op.op_type;
        if opc == Opcode::Mov {
            fold_mov(&mut info, &op, ty);
            proof {
                if premise {
                    let d = op.args@[0];
                    assert(!is_const_temp(ctx.temps_view(), d));
                    if info_at(info_before, op.args@[1].0 as int).is_const {
                        lemma_known_with_const(info_before, ctx.temps_view(), d, info_at(info_before, op.args@[1].0 as int).val & spec_type_mask(ty));
                    } else {
                        lemma_known_with_copy(info_before, ctx.temps_view(), d, op.args@[1]);
                    }
                }
            }
        } else if opc == Opcode::Neg || opc == Opcode::Not {
            fold_unary(ctx, &mut info, &mut op, opc, ty);
        } else if matches!(opc, Opcode::ExtI32I64 | Opcode::ExtUI32I64 | Opcode::ExtrlI64I32 | Opcode::ExtrhI64I32) {
            fold_ext(ctx, &mut info, &mut op, opc);
        } else if is_binary(opc) {
            fold_binary(ctx, &mut info, &mut op, opc, ty);
            proof {
                if premise {
                    let m = spec_type_mask(ty);
                    if is_const_temp(temps0, o.args@[1]) && is_const_temp(temps0, o.args@[2]) {
                        assert(op1.args@[1] == o.args@[1]);
                        assert(op1.args@[2] == o.args@[2]);
                        assert(known(info_before, o.args@[1]) == Some(temps0[o.args@[1].0 as int].val));
                        assert(known(info_before, o.args@[2]) == Some(temps0[o.args@[2].0 as int].val));
                        if crate::backend::fold::spec_eval_binary(
                            o.opc,
                            temps0[o.args@[1].0 as int].val & m,
                            temps0[o.args@[2].0 as int].val & m,
                            ty,
                        ) is Some {
                            let v = crate::backend::fold::spec_eval_binary(
                                o.opc,
                                temps0[o.args@[1].0 as int].val & m,
                                temps0[o.args@[2].0 as int].val & m,
                                ty,
                            )->0;
                            lemma_find_const_ok(ctx.consts_view(), ctx.temps_view(), ty, v & m);
                        }
                    }
                    if is_const_temp(temps0, o.args@[1]) {
                        assert(op1.args@[1] == o.args@[1]);
                        assert(known(info_before, o.args@[1]) == Some(temps0[o.args@[1].0 as int].val));
                    }
                }
            }
        } else if opc == Opcode::BrCond {
            fold_brcond(&info, &mut op, ty);
            proof {
                if premise && is_const_temp(temps0, o.args@[0]) && is_const_temp(temps0, o.args@[1]) {
                    assert(op1.args@[0] == o.args@[0]);
                    assert(op1.args@[1] == o.args@[1]);
                    assert(known(info@, o.args@[0]) == Some(temps0[o.args@[0].0 as int].val));
                    assert(known(info@, o.args@[1]) == Some(temps0[o.args@[1].0 as int].val));
                }
            }
        } else {
            invalidate_outputs(&mut info, def, op.args, ctx);
            proof {
                if premise {
                    lemma_known_forget_outputs(info_before, op.args@, def.nb_oargs as int, ctx.temps_view());
                }
            }
        }
        assert(rewritten(op, ops0[oi as int]));
        proof {
            assert(ctx.temps_view().subrange(0, ctx.temps_view().len() as int) =~= ctx.temps_view());
            lemma_grows_trans(ctx, &ctx_before, old(ctx));
            if premise {
                assert forall|k: int| 0 <= k < oi implies const_folded(#[trigger] ctx.ops_view()[k], ops0[k], temps0, ctx.temps_view()) by {
                    lemma_folded_grow(ctx.ops_view()[k], ops0[k], temps0, ctx_before.temps_view(), ctx.temps_view());
                }
                assert(const_folded(op, o, temps0, ctx.temps_view()));
            }
        }
        ctx.ops.set(oi, op);
        oi = oi + 1;
    }
}

/// The flags of the foldable binary ops and of `brcond` carry neither
/// side effects nor the vector mark.
proof fn lemma_flags_of_folded_ops()
    ensures
        (0x10u16 & crate::opcode::FLAG_SIDE_EFFECTS) != crate::opcode::FLAG_SIDE_EFFECTS,
        (0x10u16 & crate::opcode::FLAG_VECTOR) != crate::opcode::FLAG_VECTOR,
        (0x92u16 & crate::opcode::FLAG_SIDE_EFFECTS) != crate::opcode::FLAG_SIDE_EFFECTS,
        (0x92u16 & crate::opcode::FLAG_VECTOR) != crate::opcode::FLAG_VECTOR,
{
    assert((0x10u16 & 0x08u16) != 0x08u16 && (0x10u16 & 0x40u16) != 0x40u16 && (0x92u16 & 0x08u16) != 0x08u16 && (0x92u16
        & 0x40u16) != 0x40u16) by (bit_vector);
}

/// A fact of the pass about an op survives the addition of constant temps.
proof fn lemma_folded_grow(n: Op, o: Op, temps0: Seq<crate::temp::Temp>, a: Seq<crate::temp::Temp>, b: Seq<crate::temp::Temp>)
    requires
        const_folded(n, o, temps0, a),
        a.len() <= b.len(),
        b.subrange(0, a.len() as int) == a,
    ensures
        const_folded(n, o, temps0, b),
{
    if is_const_temp(a, n.args@[1]) {
        assert(b[n.args@[1].0 as int] == b.subrange(0, a.len() as int)[n.args@[1].0 as int]);
    }
}
/// Folding a width conversion: sign extension from 32 to 64 bits keeps the
/// low 32 bits and fills the high 32 with copies of bit 31, zero extension
/// and the low-half extraction keep the low 32 bits and clear the rest, and
/// the high-half extraction is the value divided by 2^32.
pub proof fn law_ext_fold(v: u64)
    ensures
        v & 0x8000_0000u64 == 0 ==> spec_ext_value(Opcode::ExtI32I64, v) == v & 0xFFFF_FFFFu64,
        v & 0x8000_0000u64 != 0 ==> spec_ext_value(Opcode::ExtI32I64, v) == (v & 0xFFFF_FFFFu64)
            | 0xFFFF_FFFF_0000_0000u64,
        spec_ext_value(Opcode::ExtUI32I64, v) == v % 0x1_0000_0000,
        spec_ext_value(Opcode::ExtrlI64I32, v) == v % 0x1_0000_0000,
        spec_ext_value(Opcode::ExtrhI64I32, v) == v / 0x1_0000_0000,
        spec_ext_type(Opcode::ExtI32I64) == Type::I64 && spec_ext_type(Opcode::ExtUI32I64) == Type::I64,
        spec_ext_type(Opcode::ExtrlI64I32) == Type::I32 && spec_ext_type(Opcode::ExtrhI64I32) == Type::I32,
{
    crate::backend::fold::lemma_shift_bits();
    assert(v & 0x8000_0000u64 == v & 0x8000_0000u64);
    assert(v & 0xFFFF_FFFFu64 == v % 0x1_0000_0000u64);
    assert(((v >> 32u64) & 0xFFFF_FFFFu64) == v / 0x1_0000_0000u64);
}

} // verus!
