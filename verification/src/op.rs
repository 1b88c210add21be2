use vstd::prelude::*;

use crate::opcode::Opcode;
use crate::temp::TempIdx;
use crate::types::{RegSet, Type};

verus! {

/// Testing bit `s` with a mask is reading bit `s`.
proof fn lemma_bit_test32(x: u32, s: u32)
    requires
        s < 32,
    ensures
        (x & (1u32 << s) != 0) <==> ((x >> s) & 1 == 1),
{
    assert(s < 32 ==> ((x & (1u32 << s) != 0) <==> ((x >> s) & 1 == 1))) by (bit_vector);
}

/// Maximum number of arguments per IR operation.
pub const MAX_OP_ARGS: usize = 10;

/// Index into the context's op list.
#[derive(Debug, Clone, Copy, PartialEq, Eq, Hash, Structural)]
pub struct OpIdx(pub u32);

/// Liveness data for an op's arguments: which args are dead after the op
/// (bit `2n`) and which need to be synced to memory (bit `2n + 1`).
#[derive(Debug, Clone, Copy, PartialEq, Eq, Default, Structural)]
pub struct LifeData(pub u32);

impl LifeData {
    pub open spec fn dead_bit(n: u32) -> u32 {
        (1u32 << (n * 2) as u32) as u32
    }

    pub open spec fn sync_bit(n: u32) -> u32 {
        (1u32 << (n * 2 + 1) as u32) as u32
    }

    /// Whether arg `n` is marked dead.
    pub open spec fn spec_is_dead(self, n: u32) -> bool {
        (self.0 >> (n * 2) as u32) & 1 == 1
    }

    /// Whether arg `n` is marked for sync.
    pub open spec fn spec_is_sync(self, n: u32) -> bool {
        (self.0 >> (n * 2 + 1) as u32) & 1 == 1
    }

    pub fn dead_arg(n: u32) -> (r: u32)
        requires
            n < 16,
        ensures
            r == Self::dead_bit(n),
    {
        1u32 << (n * 2)
    }

    pub fn sync_arg(n: u32) -> (r: u32)
        requires
            n < 16,
        ensures
            r == Self::sync_bit(n),
    {
        1u32 << (n * 2 + 1)
    }

    pub fn is_dead(&self, n: u32) -> (r: bool)
        requires
            n < 16,
        ensures
            r == self.spec_is_dead(n),
    {
        let x = self.0;
        let s = n * 2;
        proof {
            lemma_bit_test32(x, s);
        }
        x & (1u32 << s) != 0
    }

    pub fn is_sync(&self, n: u32) -> (r: bool)
        requires
            n < 16,
        ensures
            r == self.spec_is_sync(n),
    {
        let x = self.0;
        let s = n * 2 + 1;
        proof {
            lemma_bit_test32(x, s);
        }
        x & (1u32 << s) != 0
    }

    /// Mark arg `n` dead; every other mark is kept.
    pub fn set_dead(&mut self, n: u32)
        requires
            n < 16,
        ensures
            final(self).0 == old(self).0 | Self::dead_bit(n),
            final(self).spec_is_dead(n),
            forall|m: u32| m < 16 && m != n ==> #[trigger] final(self).spec_is_dead(m) == old(self).spec_is_dead(m),
            forall|m: u32| m < 16 ==> #[trigger] final(self).spec_is_sync(m) == old(self).spec_is_sync(m),
    {
        let x = self.0;
        let s = n * 2;
        proof {
            assert(s < 32 ==> ((x | (1u32 << s)) >> s) & 1 == 1) by (bit_vector);
            assert forall|m: u32| m < 16 && m != n implies #[trigger] LifeData(x | (1u32 << s)).spec_is_dead(m) == LifeData(x).spec_is_dead(m) by {
                let t: u32 = (m * 2) as u32;
                assert(s < 32 && t < 32 && t != s ==> ((((x | (1u32 << s)) >> t) & 1 == 1) <==> ((x >> t) & 1 == 1))) by (bit_vector);
            }
            assert forall|m: u32| m < 16 implies #[trigger] LifeData(x | (1u32 << s)).spec_is_sync(m) == LifeData(x).spec_is_sync(m) by {
                let t: u32 = (m * 2 + 1) as u32;
                assert(s < 32 && t < 32 && s % 2 == 0 && t % 2 == 1 ==> ((((x | (1u32 << s)) >> t) & 1 == 1) <==> ((x >> t) & 1 == 1))) by (bit_vector);
            }
        }
        self.0 = x | (1u32 << s);
    }

    /// Mark arg `n` for sync; every other mark is kept.
    pub fn set_sync(&mut self, n: u32)
        requires
            n < 16,
        ensures
            final(self).0 == old(self).0 | Self::sync_bit(n),
            final(self).spec_is_sync(n),
            forall|m: u32| m < 16 && m != n ==> #[trigger] final(self).spec_is_sync(m) == old(self).spec_is_sync(m),
            forall|m: u32| m < 16 ==> #[trigger] final(self).spec_is_dead(m) == old(self).spec_is_dead(m),
    {
        let x = self.0;
        let s = n * 2 + 1;
        proof {
            assert(s < 32 ==> ((x | (1u32 << s)) >> s) & 1 == 1) by (bit_vector);
            assert forall|m: u32| m < 16 && m != n implies #[trigger] LifeData(x | (1u32 << s)).spec_is_sync(m) == LifeData(x).spec_is_sync(m) by {
                let t: u32 = (m * 2 + 1) as u32;
                assert(s < 32 && t < 32 && t != s ==> ((((x | (1u32 << s)) >> t) & 1 == 1) <==> ((x >> t) & 1 == 1))) by (bit_vector);
            }
            assert forall|m: u32| m < 16 implies #[trigger] LifeData(x | (1u32 << s)).spec_is_dead(m) == LifeData(x).spec_is_dead(m) by {
                let t: u32 = (m * 2) as u32;
                assert(s < 32 && t < 32 && s % 2 == 1 && t % 2 == 0 ==> ((((x | (1u32 << s)) >> t) & 1 == 1) <==> ((x >> t) & 1 == 1))) by (bit_vector);
            }
        }
        self.0 = x | (1u32 << s);
    }
}

/// The empty liveness record marks nothing.
pub proof fn lemma_life_empty(n: u32)
    requires
        n < 16,
    ensures
        !LifeData(0).spec_is_dead(n),
        !LifeData(0).spec_is_sync(n),
{
    let s: u32 = (n * 2) as u32;
    let t: u32 = (n * 2 + 1) as u32;
    assert((0u32 >> s) & 1 == 0) by (bit_vector);
    assert((0u32 >> t) & 1 == 0) by (bit_vector);
}

/// A single IR operation.
#[derive(Debug, Clone, Copy)]
pub struct Op {
    pub idx: OpIdx,
    pub opc: Opcode,
    /// Operand type for type-polymorphic ops.
    pub op_type: Type,
    /// Opcode-specific parameter 1.
    pub param1: u8,
    /// Opcode-specific parameter 2.
    pub param2: u8,
    /// Liveness analysis results.
    pub life: LifeData,
    /// Preferred output registers (hints for the register allocator).
    pub output_pref: [RegSet; 2],
    /// Arguments: temp indices, label ids, or encoded immediates.
    pub args: [TempIdx; MAX_OP_ARGS],
    pub nargs: u8,
}

impl Op {
    /// An op with no arguments.
    pub fn new(idx: OpIdx, opc: Opcode, op_type: Type) -> (op: Self)
        ensures
            op.idx == idx,
            op.opc == opc,
            op.op_type == op_type,
            op.param1 == 0,
            op.param2 == 0,
            op.life == LifeData(0),
            op.output_pref@ == seq![RegSet(0), RegSet(0)],
            op.args@ == Seq::new(10, |i: int| TempIdx(0)),
            op.nargs == 0,
    {
        let op = Op {
            idx,
            opc,
            op_type,
            param1: 0,
            param2: 0,
            life: LifeData(0),
            output_pref: [RegSet(0), RegSet(0)],
            args: [TempIdx(0), TempIdx(0), TempIdx(0), TempIdx(0), TempIdx(0), TempIdx(0), TempIdx(0), TempIdx(0), TempIdx(0), TempIdx(0)],
            nargs: 0,
        };
        assert(op.args@ =~= Seq::new(10, |i: int| TempIdx(0)));
        op
    }

    /// An op whose first arguments are `args` (at most the first ten of them).
    pub fn with_args(idx: OpIdx, opc: Opcode, op_type: Type, args: &[TempIdx]) -> (op: Self)
        ensures
            op.idx == idx,
            op.opc == opc,
            op.op_type == op_type,
            op.param1 == 0,
            op.param2 == 0,
            op.life == LifeData(0),
            op.output_pref@ == seq![RegSet(0), RegSet(0)],
            op.nargs as int == if args@.len() < 10 { args@.len() as int } else { 10 },
            forall|i: int| 0 <= i < op.nargs ==> #[trigger] op.args@[i] == args@[i],
            forall|i: int| op.nargs <= i < 10 ==> #[trigger] op.args@[i] == TempIdx(0),
    {
        let mut op = Self::new(idx, opc, op_type);
        let n = if args.len() < MAX_OP_ARGS { args.len() } else { MAX_OP_ARGS };
        let mut i: usize = 0;
        while i < n
            invariant
                n <= 10,
                n <= args@.len(),
                i <= n,
                op.idx == idx,
                op.opc == opc,
                op.op_type == op_type,
                op.param1 == 0,
                op.param2 == 0,
                op.life == LifeData(0),
                op.output_pref@ == seq![RegSet(0), RegSet(0)],
                op.nargs == 0,
                forall|k: int| 0 <= k < i ==> #[trigger] op.args@[k] == args@[k],
                forall|k: int| i <= k < 10 ==> #[trigger] op.args@[k] == TempIdx(0),
            decreases n - i,
        {
            op.args[i] = args[i];
            i = i + 1;
        }
        op.nargs = n as u8;
        op
    }

    /// The output arguments (per the opcode definition).
    pub fn oargs(&self) -> (r: Vec<TempIdx>)
        ensures
            r@ == self.args@.subrange(0, self.opc.spec_def().nb_oargs as int),
    {
        let d = self.opc.def();
        proof {
            crate::opcode::lemma_opcode_arg_counts(self.opc);
        }
        self.arg_range(0, d.nb_oargs as usize)
    }

    /// The input arguments.
    pub fn iargs(&self) -> (r: Vec<TempIdx>)
        ensures
            r@ == self.args@.subrange(
                self.opc.spec_def().nb_oargs as int,
                self.opc.spec_def().nb_oargs + self.opc.spec_def().nb_iargs,
            ),
    {
        let d = self.opc.def();
        proof {
            crate::opcode::lemma_opcode_arg_counts(self.opc);
        }
        let start = d.nb_oargs as usize;
        self.arg_range(start, start + d.nb_iargs as usize)
    }

    /// The constant arguments.
    pub fn cargs(&self) -> (r: Vec<TempIdx>)
        ensures
            r@ == self.args@.subrange(
                self.opc.spec_def().nb_oargs + self.opc.spec_def().nb_iargs,
                self.opc.spec_def().spec_nb_args(),
            ),
    {
        let d = self.opc.def();
        proof {
            crate::opcode::lemma_opcode_arg_counts(self.opc);
        }
        let start = d.nb_oargs as usize + d.nb_iargs as usize;
        self.arg_range(start, start + d.nb_cargs as usize)
    }

    fn arg_range(&self, start: usize, end: usize) -> (r: Vec<TempIdx>)
        requires
            start <= end <= 10,
        ensures
            r@ == self.args@.subrange(start as int, end as int),
    {
        let mut r: Vec<TempIdx> = Vec::new();
        let mut i = start;
        while i < end
            invariant
                start <= i <= end <= 10,
                r@ == self.args@.subrange(start as int, i as int),
            decreases end - i,
        {
            r.push(self.args[i]);
            i = i + 1;
        }
        r
    }
}

} // verus!
