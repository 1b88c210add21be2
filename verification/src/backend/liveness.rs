use vstd::prelude::*;

use crate::context::Context;
use crate::op::{LifeData, Op, OpIdx};
use crate::opcode::{lemma_opcode_arg_counts, OpFlags, Opcode, FLAG_BB_END};
use crate::temp::{Temp, TempKind};
use crate::types::Type;

verus! {

/// The op ends a basic block (after it, every global may be read).
pub open spec fn ends_block(opc: Opcode) -> bool {
    opc.spec_def().flags.has(FLAG_BB_END)
}

/// The op produces no code and has no operands to track.
pub open spec fn skips_liveness(opc: Opcode) -> bool {
    opc is Nop || opc is InsnStart
}

/// `s` with the first `ng` temps (the globals) live.
pub open spec fn globals_live(s: Seq<bool>, ng: nat) -> Seq<bool> {
    Seq::new(s.len(), |t: int| if t < ng { true } else { s[t] })
}

/// Walking the outputs `0..i` of `op` backwards from the liveness `s`: an
/// output whose temp is not live is dead on write; every output temp is not
/// live before the op. Gives the liveness and the life bits so far.
pub open spec fn life_outs(s: Seq<bool>, op: Op, i: nat) -> (Seq<bool>, u32)
    decreases i,
{
    if i == 0 {
        (s, 0u32)
    } else {
        let (s0, l0) = life_outs(s, op, (i - 1) as nat);
        let t = op.args@[i - 1].0 as int;
        let l1 = if t < s0.len() && !s0[t] { l0 | LifeData::dead_bit((i - 1) as u32) } else { l0 };
        let s1 = if t < s0.len() { s0.update(t, false) } else { s0 };
        (s1, l1)
    }
}

/// Walking the inputs `0..i` of `op` (its arguments `no..no + i`): an input
/// whose temp is not live after it is its last use, so dead (and, for a
/// global, to be synced first); every input temp is live before the op.
pub open spec fn life_ins(s: Seq<bool>, l: u32, temps: Seq<Temp>, op: Op, no: nat, i: nat) -> (Seq<bool>, u32)
    decreases i,
{
    if i == 0 {
        (s, l)
    } else {
        let (s0, l0) = life_ins(s, l, temps, op, no, (i - 1) as nat);
        let pos = no + i - 1;
        let t = op.args@[pos].0 as int;
        if t >= s0.len() {
            (s0, l0)
        } else {
            let l1 = if !s0[t] {
                if temps[t].kind is Global {
                    (l0 | LifeData::dead_bit(pos as u32)) | LifeData::sync_bit(pos as u32)
                } else {
                    l0 | LifeData::dead_bit(pos as u32)
                }
            } else {
                l0
            };
            (s0.update(t, true), l1)
        }
    }
}

/// The liveness before `op` and its life bits, from the liveness `s` after it.
pub open spec fn op_effect(s: Seq<bool>, op: Op, temps: Seq<Temp>) -> (Seq<bool>, u32) {
    let d = op.opc.spec_def();
    let (s1, l1) = life_outs(s, op, d.nb_oargs as nat);
    life_ins(s1, l1, temps, op, d.nb_oargs as nat, d.nb_iargs as nat)
}

/// The liveness after op `k` once block ends are accounted for.
pub open spec fn live_at_end_of(ops: Seq<Op>, temps: Seq<Temp>, ng: nat, k: int) -> Seq<bool> {
    let s = live_before(ops, temps, ng, k + 1);
    if ends_block(ops[k].opc) {
        globals_live(s, ng)
    } else {
        s
    }
}

/// The liveness of every temp before op `k`, found by walking the ops from
/// the end back to `k`; at the end of the block only the globals are live.
pub open spec fn live_before(ops: Seq<Op>, temps: Seq<Temp>, ng: nat, k: int) -> Seq<bool>
    decreases ops.len() - k,
{
    if k >= ops.len() || k < 0 {
        Seq::new(temps.len(), |t: int| t < ng)
    } else {
        let s0 = live_before(ops, temps, ng, k + 1);
        let s = if ends_block(ops[k].opc) {
            globals_live(s0, ng)
        } else {
            s0
        };
        if skips_liveness(ops[k].opc) {
            s
        } else {
            op_effect(s, ops[k], temps).0
        }
    }
}

/// The life bits that the analysis gives op `k`.
pub open spec fn life_at(ops: Seq<Op>, temps: Seq<Temp>, ng: nat, k: int) -> u32 {
    op_effect(live_at_end_of(ops, temps, ng, k), ops[k], temps).1
}

/// `a` and `b` agree but for their life bits.
pub open spec fn same_but_life(a: Op, b: Op) -> bool {
    &&& a.idx == b.idx
    &&& a.opc == b.opc
    &&& a.op_type == b.op_type
    &&& a.param1 == b.param1
    &&& a.param2 == b.param2
    &&& a.output_pref == b.output_pref
    &&& a.args == b.args
    &&& a.nargs == b.nargs
}

fn set_globals_live(state: &mut Vec<bool>, ng: usize)
    requires
        ng <= old(state)@.len(),
    ensures
        final(state)@ == globals_live(old(state)@, ng as nat),
{
    let mut j: usize = 0;
    while j < ng
        invariant
            j <= ng <= state@.len(),
            state@.len() == old(state)@.len(),
            forall|t: int| 0 <= t < state@.len() ==> #[trigger] state@[t] == if t < j {
                true
            } else {
                old(state)@[t]
            },
        decreases ng - j,
    {
        state.set(j, true);
        j = j + 1;
    }
    assert(state@ =~= globals_live(old(state)@, ng as nat));
}

/// Backward liveness over the ops of `ctx`: give each op (but `nop` and
/// `insn_start`) the life bits that mark which of its arguments die there
/// and which globals must be synced to memory before dying.
pub fn liveness_analysis(ctx: &mut Context)
    requires
        old(ctx).wf(),
    ensures
        final(ctx).same_but_ops(old(ctx)),
        final(ctx).ops_view().len() == old(ctx).ops_view().len(),
        forall|k: int|
            0 <= k < old(ctx).ops_view().len() ==> {
                let o = old(ctx).ops_view()[k];
                let n = #[trigger] final(ctx).ops_view()[k];
                &&& same_but_life(n, o)
                &&& n.life == if skips_liveness(o.opc) {
                    o.life
                } else {
                    LifeData(
                        life_at(
                            old(ctx).ops_view(),
                            old(ctx).temps_view(),
                            old(ctx).spec_nb_globals(),
                            k,
                        ),
                    )
                }
            },
{
    let nb_temps = ctx.temps.len();
    let nb_globals = ctx.nb_globals as usize;
    let ghost ops0 = ctx.ops_view();
    let ghost temps = ctx.temps_view();
    let ghost ng = ctx.spec_nb_globals();
    let mut state: Vec<bool> = Vec::new();
    let mut t: usize = 0;
    while t < nb_temps
        invariant
            t <= nb_temps,
            nb_globals == ng,
            state@.len() == t,
            forall|j: int| 0 <= j < t ==> #[trigger] state@[j] == (j < ng),
        decreases nb_temps - t,
    {
        state.push(t < nb_globals);
        t = t + 1;
    }
    assert(state@ =~= live_before(ops0, temps, ng, ops0.len() as int));
    let num_ops = ctx.ops.len();
    let mut oi: usize = num_ops;
    while oi > 0
        invariant
            oi <= num_ops == ops0.len(),
            nb_temps == temps.len(),
            nb_globals == ng <= temps.len(),
            ctx.wf(),
            ctx.temps_view() == temps,
            ctx.spec_nb_globals() == ng,
            ctx.same_but_ops(old(ctx)),
            old(ctx).ops_view() == ops0,
            old(ctx).temps_view() == temps,
            old(ctx).spec_nb_globals() == ng,
            ctx.ops_view().len() == ops0.len(),
            state@ == live_before(ops0, temps, ng, oi as int),
            state@.len() == nb_temps,
            forall|k: int| 0 <= k < oi ==> #[trigger] ctx.ops_view()[k] == ops0[k],
            forall|k: int|
                oi <= k < ops0.len() ==> {
                    let o = ops0[k];
                    let n = #[trigger] ctx.ops_view()[k];
                    &&& same_but_life(n, o)
                    &&& n.life == if skips_liveness(o.opc) {
                        o.life
                    } else {
                        LifeData(life_at(ops0, temps, ng, k))
                    }
                },
        decreases oi,
    {
        oi = oi - 1;
        let op = ctx.ops[oi];
        assert(op == ops0[oi as int]);
        let def = op.opc.def();
        proof {
            lemma_opcode_arg_counts(op.opc);
        }
        if def.flags.contains(OpFlags::bb_end()) {
            set_globals_live(&mut state, nb_globals);
        }
        assert(state@ == live_at_end_of(ops0, temps, ng, oi as int));
        if op.opc == Opcode::Nop || op.opc == Opcode::InsnStart {
            continue;
        }
        let mut life: u32 = 0;
        let nb_oargs = def.nb_oargs as usize;
        let nb_iargs = def.nb_iargs as usize;
        let ghost s_end = state@;
        let mut i: usize = 0;
        while i < nb_oargs
            invariant
                i <= nb_oargs <= 10,
                nb_oargs == op.opc.spec_def().nb_oargs,
                nb_temps == state@.len(),
                (state@, life) == life_outs(s_end, op, i as nat),
            decreases nb_oargs - i,
        {
            let tidx = op.args[i].0 as usize;
            if tidx < nb_temps && !state[tidx] {
                life = life | LifeData::dead_arg(i as u32);
            }
            if tidx < nb_temps {
                state.set(tidx, false);
            }
            i = i + 1;
        }
        let ghost s_outs = state@;
        let ghost l_outs = life;
        let mut i: usize = 0;
        while i < nb_iargs
            invariant
                i <= nb_iargs,
                nb_oargs + nb_iargs <= 10,
                nb_oargs == op.opc.spec_def().nb_oargs,
                nb_iargs == op.opc.spec_def().nb_iargs,
                nb_temps == state@.len() == temps.len(),
                ctx.temps_view() == temps,
                (state@, life) == life_ins(s_outs, l_outs, temps, op, nb_oargs as nat, i as nat),
            decreases nb_iargs - i,
        {
            let pos = nb_oargs + i;
            let tidx = op.args[pos].0 as usize;
            if tidx < nb_temps {
                if !state[tidx] {
                    life = life | LifeData::dead_arg(pos as u32);
                    if ctx.temps[tidx].kind == TempKind::Global {
                        life = life | LifeData::sync_arg(pos as u32);
                    }
                }
                state.set(tidx, true);
            }
            i = i + 1;
        }
        assert(state@ == live_before(ops0, temps, ng, oi as int));
        assert(life == life_at(ops0, temps, ng, oi as int));
        let op_mut = ctx.op_mut(OpIdx(oi as u32));
        op_mut.life = LifeData(life);
    }
}

} // verus!
