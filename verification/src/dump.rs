use vstd::prelude::*;
use vstd::string::StringSliceAdditionalSpecFns;

use crate::context::Context;
use crate::op::Op;
use crate::opcode::{Opcode, FLAG_INT};
use crate::temp::{TempIdx, TempKind};
use crate::types::Type;
use crate::text::{dec, hex, lit, put_dec, put_hex, put_hex16, put_str, zpad16};

verus! {

/// The short name of a condition code.
pub open spec fn cond_name(c: u32) -> &'static str {
    if c == 0 {
        "never"
    } else if c == 1 {
        "always"
    } else if c == 8 {
        "eq"
    } else if c == 9 {
        "ne"
    } else if c == 10 {
        "lt"
    } else if c == 11 {
        "ge"
    } else if c == 12 {
        "le"
    } else if c == 13 {
        "gt"
    } else if c == 14 {
        "ltu"
    } else if c == 15 {
        "geu"
    } else if c == 16 {
        "leu"
    } else if c == 17 {
        "gtu"
    } else if c == 18 {
        "tsteq"
    } else if c == 19 {
        "tstne"
    } else {
        "???"
    }
}

/// How a temp reference is shown: constants and indices past the temps as
/// `$0x..`, named globals and fixed temps by name, unnamed ones as `g<i>`
/// and `fixed(<reg>)`, locals as `tmp<n>` numbered from the first local.
pub open spec fn fmt_temp(ctx: &Context, idx: TempIdx) -> Seq<u8> {
    let i = idx.0;
    if i >= ctx.temps@.len() {
        lit("$0x") + hex(i as nat)
    } else {
        let t = ctx.temps@[i as int];
        match t.kind {
            TempKind::Const => lit("$0x") + hex(t.val as nat),
            TempKind::Global => match t.name {
                Some(n) => n.spec_bytes(),
                None => lit("g") + dec(i as nat),
            },
            TempKind::Fixed => match t.name {
                Some(n) => n.spec_bytes(),
                None => lit("fixed(") + dec(
                    match t.reg {
                        Some(r) => r as nat,
                        None => 0,
                    },
                ) + lit(")"),
            },
            _ => lit("tmp") + dec(
                if i >= ctx.nb_globals {
                    (i - ctx.nb_globals) as nat
                } else {
                    (i + 0x1_0000_0000 - ctx.nb_globals) as nat
                },
            ),
        }
    }
}

/// The name of an op: its definition's name, with `_i32` or `_i64` for
/// integer-polymorphic ops of those types.
pub open spec fn op_name(op: Op) -> Seq<u8> {
    op.opc.spec_def().name.spec_bytes() + if op.opc.spec_def().flags.has(FLAG_INT) {
        if op.op_type == Type::I32 {
            lit("_i32")
        } else if op.op_type == Type::I64 {
            lit("_i64")
        } else {
            Seq::empty()
        }
    } else {
        Seq::empty()
    }
}

/// The first `n` of `args`, each shown after a space, separated by commas
/// (a comma also before the first when `lead` holds).
pub open spec fn fmt_args(ctx: &Context, args: Seq<TempIdx>, n: nat, lead: bool) -> Seq<u8>
    decreases n,
{
    if n == 0 || n > args.len() {
        Seq::empty()
    } else {
        fmt_args(ctx, args, (n - 1) as nat, lead) + (if lead || n > 1 {
            lit(",")
        } else {
            Seq::empty()
        }) + lit(" ") + fmt_temp(ctx, args[n - 1])
    }
}

/// The first `n` constants of `cargs` as ` $0x..`, separated by commas (a
/// comma also before the first when `lead` holds).
pub open spec fn fmt_consts(cargs: Seq<TempIdx>, n: nat, lead: bool) -> Seq<u8>
    decreases n,
{
    if n == 0 || n > cargs.len() {
        Seq::empty()
    } else {
        fmt_consts(cargs, (n - 1) as nat, lead) + (if lead || n > 1 {
            lit(",")
        } else {
            Seq::empty()
        }) + lit(" $0x") + hex(cargs[n - 1].0 as nat)
    }
}

/// The two 32-bit halves `lo`, `hi` as one 64-bit value.
pub open spec fn join64(lo: u32, hi: u32) -> nat {
    (hi * 0x1_0000_0000 + lo) as nat
}

/// The output, input and constant arguments of `op`.
pub open spec fn oargs_of(op: Op) -> Seq<TempIdx> {
    op.args@.subrange(0, op.opc.spec_def().nb_oargs as int)
}

pub open spec fn iargs_of(op: Op) -> Seq<TempIdx> {
    op.args@.subrange(
        op.opc.spec_def().nb_oargs as int,
        op.opc.spec_def().nb_oargs + op.opc.spec_def().nb_iargs,
    )
}

pub open spec fn cargs_of(op: Op) -> Seq<TempIdx> {
    op.args@.subrange(
        op.opc.spec_def().nb_oargs + op.opc.spec_def().nb_iargs,
        op.opc.spec_def().spec_nb_args(),
    )
}

/// The constant-argument part of an op's line.
pub open spec fn fmt_cargs(op: Op) -> Seq<u8> {
    let c = cargs_of(op);
    if op.opc == Opcode::BrCond {
        lit(", ") + lit(cond_name(c[0].0)) + lit(", L") + dec(c[1].0 as nat)
    } else if op.opc == Opcode::SetCond || op.opc == Opcode::NegSetCond || op.opc == Opcode::MovCond
        || op.opc == Opcode::CmpVec || op.opc == Opcode::CmpselVec {
        lit(", ") + lit(cond_name(c[0].0))
    } else if op.opc == Opcode::Br {
        lit(" L") + dec(c[0].0 as nat)
    } else if op.opc == Opcode::Call {
        lit(", $0x") + hex(join64(c[0].0, c[1].0))
    } else {
        fmt_consts(c, c.len(), oargs_of(op).len() > 0 || iargs_of(op).len() > 0)
    }
}

/// The line of an op other than an instruction start.
pub open spec fn op_line(ctx: &Context, op: Op) -> Seq<u8> {
    if op.opc == Opcode::SetLabel {
        lit(" L") + dec(cargs_of(op)[0].0 as nat) + lit(":\n")
    } else {
        lit(" ") + op_name(op) + fmt_args(ctx, oargs_of(op), oargs_of(op).len(), false) + fmt_args(
            ctx,
            iargs_of(op),
            iargs_of(op).len(),
            oargs_of(op).len() > 0,
        ) + fmt_cargs(op) + lit("\n")
    }
}

/// The guest pc of an instruction start.
pub open spec fn insn_pc(op: Op) -> nat {
    join64(cargs_of(op)[0].0, cargs_of(op)[1].0)
}

/// The header of an instruction start, up to where an annotation goes.
pub open spec fn insn_head(pc: nat) -> Seq<u8> {
    lit(" ---- 0x") + zpad16(hex(pc))
}

/// The rest of an instruction start, after the annotation.
pub open spec fn insn_tail(pc: nat) -> Seq<u8> {
    lit("\n") + lit(" insn_start $0x") + hex(pc) + lit("\n")
}

/// One line (or, for an instruction start, two) of the dump.
pub enum DumpLine {
    /// The text of an op.
    Text(Vec<u8>),
    /// An instruction start at `pc`: `head`, then any annotation, then `tail`.
    Insn { pc: u64, head: Vec<u8>, tail: Vec<u8> },
}

/// `l` is the dump line of `op`.
pub open spec fn line_is(ctx: &Context, op: Op, l: DumpLine) -> bool {
    if op.opc == Opcode::InsnStart {
        l matches DumpLine::Insn { pc, head, tail } && pc == insn_pc(op) && head@ == insn_head(
            insn_pc(op),
        ) && tail@ == insn_tail(insn_pc(op))
    } else {
        l matches DumpLine::Text(t) && t@ == op_line(ctx, op)
    }
}

/// The dump of the first `n` ops with no annotations.
pub open spec fn dump_text(ctx: &Context, n: nat) -> Seq<u8>
    decreases n,
{
    if n == 0 || n > ctx.ops@.len() {
        Seq::empty()
    } else {
        let op = ctx.ops@[n - 1];
        dump_text(ctx, (n - 1) as nat) + if op.opc == Opcode::InsnStart {
            insn_head(insn_pc(op)) + insn_tail(insn_pc(op))
        } else {
            op_line(ctx, op)
        }
    }
}

fn cond_str(c: u32) -> (r: &'static str)
    ensures
        r == cond_name(c),
{
    match c {
        0 => "never",
        1 => "always",
        8 => "eq",
        9 => "ne",
        10 => "lt",
        11 => "ge",
        12 => "le",
        13 => "gt",
        14 => "ltu",
        15 => "geu",
        16 => "leu",
        17 => "gtu",
        18 => "tsteq",
        19 => "tstne",
        _ => "???",
    }
}

fn put_temp(out: &mut Vec<u8>, ctx: &Context, idx: TempIdx)
    ensures
        final(out)@ == old(out)@ + fmt_temp(ctx, idx),
{
    let i = idx.0;
    if i as usize >= ctx.temps.len() {
        put_str(out, "$0x");
        put_hex(out, i as u64);
        return;
    }
    let t = &ctx.temps[i as usize];
    match t.kind {
        TempKind::Const => {
            put_str(out, "$0x");
            put_hex(out, t.val);
        },
        TempKind::Global => match t.name {
            Some(n) => put_str(out, n),
            None => {
                put_str(out, "g");
                put_dec(out, i as u64);
            },
        },
        TempKind::Fixed => match t.name {
            Some(n) => put_str(out, n),
            None => {
                put_str(out, "fixed(");
                put_dec(
                    out,
                    match t.reg {
                        Some(r) => r as u64,
                        None => 0,
                    },
                );
                put_str(out, ")");
            },
        },
        _ => {
            put_str(out, "tmp");
            let g = ctx.nb_globals;
            let local: u64 = if i >= g {
                (i - g) as u64
            } else {
                i as u64 + 0x1_0000_0000 - g as u64
            };
            put_dec(out, local);
        },
    }
}

fn put_args(out: &mut Vec<u8>, ctx: &Context, args: &Vec<TempIdx>, lead: bool)
    ensures
        final(out)@ == old(out)@ + fmt_args(ctx, args@, args@.len(), lead),
{
    let ghost o0 = out@;
    let mut k: usize = 0;
    while k < args.len()
        invariant
            k <= args@.len(),
            out@ == o0 + fmt_args(ctx, args@, k as nat, lead),
        decreases args@.len() - k,
    {
        if lead || k > 0 {
            put_str(out, ",");
        }
        put_str(out, " ");
        put_temp(out, ctx, args[k]);
        assert(out@ =~= o0 + fmt_args(ctx, args@, (k + 1) as nat, lead));
        k = k + 1;
    }
}

fn put_consts(out: &mut Vec<u8>, cargs: &Vec<TempIdx>, lead: bool)
    ensures
        final(out)@ == old(out)@ + fmt_consts(cargs@, cargs@.len(), lead),
{
    let ghost o0 = out@;
    let mut k: usize = 0;
    while k < cargs.len()
        invariant
            k <= cargs@.len(),
            out@ == o0 + fmt_consts(cargs@, k as nat, lead),
        decreases cargs@.len() - k,
    {
        if lead || k > 0 {
            put_str(out, ",");
        }
        put_str(out, " $0x");
        put_hex(out, cargs[k].0 as u64);
        assert(out@ =~= o0 + fmt_consts(cargs@, (k + 1) as nat, lead));
        k = k + 1;
    }
}

/// The line of `op` (not an instruction start).
fn op_line_bytes(ctx: &Context, op: &Op) -> (r: Vec<u8>)
    requires
        op.opc != Opcode::InsnStart,
    ensures
        r@ == op_line(ctx, *op),
{
    let mut out: Vec<u8> = Vec::new();
    let cargs = op.cargs();
    proof {
        crate::opcode::lemma_opcode_arg_counts(op.opc);
    }
    if op.opc == Opcode::SetLabel {
        put_str(&mut out, " L");
        put_dec(&mut out, cargs[0].0 as u64);
        put_str(&mut out, ":\n");
        assert(out@ =~= op_line(ctx, *op));
        return out;
    }
    put_str(&mut out, " ");
    let d = op.opc.def();
    put_str(&mut out, d.name);
    if op.opc.is_int_polymorphic() {
        match op.op_type {
            Type::I32 => put_str(&mut out, "_i32"),
            Type::I64 => put_str(&mut out, "_i64"),
            _ => {},
        }
    }
    let ghost after_name = out@;
    assert(after_name =~= lit(" ") + op_name(*op));
    let oargs = op.oargs();
    put_args(&mut out, ctx, &oargs, false);
    let iargs = op.iargs();
    put_args(&mut out, ctx, &iargs, oargs.len() > 0);
    let ghost before_c = out@;
    if op.opc == Opcode::BrCond {
        put_str(&mut out, ", ");
        put_str(&mut out, cond_str(cargs[0].0));
        put_str(&mut out, ", L");
        put_dec(&mut out, cargs[1].0 as u64);
    } else if op.opc == Opcode::SetCond || op.opc == Opcode::NegSetCond || op.opc == Opcode::MovCond
        || op.opc == Opcode::CmpVec || op.opc == Opcode::CmpselVec {
        put_str(&mut out, ", ");
        put_str(&mut out, cond_str(cargs[0].0));
    } else if op.opc == Opcode::Br {
        put_str(&mut out, " L");
        put_dec(&mut out, cargs[0].0 as u64);
    } else if op.opc == Opcode::Call {
        put_str(&mut out, ", $0x");
        let addr = (cargs[1].0 as u64) * 0x1_0000_0000 + cargs[0].0 as u64;
        put_hex(&mut out, addr);
    } else {
        put_consts(&mut out, &cargs, oargs.len() > 0 || iargs.len() > 0);
    }
    assert(out@ =~= before_c + fmt_cargs(*op));
    put_str(&mut out, "\n");
    assert(out@ =~= op_line(ctx, *op));
    out
}

/// The dump of the ops of `ctx`, one line per op (two for an instruction
/// start, with room for an annotation between its header and the rest).
pub fn dump_ops_with(ctx: &Context) -> (r: Vec<DumpLine>)
    ensures
        r@.len() == ctx.ops@.len(),
        forall|i: int| 0 <= i < r@.len() ==> line_is(ctx, ctx.ops@[i], #[trigger] r@[i]),
{
    let mut lines: Vec<DumpLine> = Vec::new();
    let mut i: usize = 0;
    while i < ctx.ops.len()
        invariant
            i <= ctx.ops@.len(),
            lines@.len() == i,
            forall|j: int| 0 <= j < i ==> line_is(ctx, ctx.ops@[j], #[trigger] lines@[j]),
        decreases ctx.ops@.len() - i,
    {
        let op = &ctx.ops[i];
        if op.opc == Opcode::InsnStart {
            let cargs = op.cargs();
            let pc = (cargs[1].0 as u64) * 0x1_0000_0000 + cargs[0].0 as u64;
            let mut head: Vec<u8> = Vec::new();
            put_str(&mut head, " ---- 0x");
            put_hex16(&mut head, pc);
            let mut tail: Vec<u8> = Vec::new();
            put_str(&mut tail, "\n");
            put_str(&mut tail, " insn_start $0x");
            put_hex(&mut tail, pc);
            put_str(&mut tail, "\n");
            assert(head@ =~= insn_head(insn_pc(*op)));
            assert(tail@ =~= insn_tail(insn_pc(*op)));
            lines.push(DumpLine::Insn { pc, head, tail });
        } else {
            lines.push(DumpLine::Text(op_line_bytes(ctx, op)));
        }
        i = i + 1;
    }
    lines
}

/// The dump of the ops of `ctx` as text, without annotations.
pub fn dump_ops(ctx: &Context) -> (r: Vec<u8>)
    ensures
        r@ == dump_text(ctx, ctx.ops@.len()),
{
    let lines = dump_ops_with(ctx);
    let mut out: Vec<u8> = Vec::new();
    let mut i: usize = 0;
    while i < lines.len()
        invariant
            i <= lines@.len(),
            lines@.len() == ctx.ops@.len(),
            forall|j: int| 0 <= j < lines@.len() ==> line_is(ctx, ctx.ops@[j], #[trigger] lines@[j]),
            out@ == dump_text(ctx, i as nat),
        decreases lines@.len() - i,
    {
        assert(line_is(ctx, ctx.ops@[i as int], lines@[i as int]));
        match &lines[i] {
            DumpLine::Text(t) => {
                out.extend_from_slice(t.as_slice());
            },
            DumpLine::Insn { pc: _, head, tail } => {
                out.extend_from_slice(head.as_slice());
                out.extend_from_slice(tail.as_slice());
            },
        }
        assert(out@ =~= dump_text(ctx, (i + 1) as nat));
        i = i + 1;
    }
    out
}

} // verus!
