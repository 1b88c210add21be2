use vstd::prelude::*;

use crate::label::Label;
use crate::op::{Op, OpIdx};
use crate::temp::{Temp, TempIdx, TempKind};
use crate::types::{RegSet, TempVal, Type};

verus! {

/// Maximum number of temps per translation context.
pub const MAX_TEMPS: usize = 512;

/// Maximum number of guest instructions per translation block.
pub const MAX_INSNS: usize = 512;

/// An entry of the constant table: the const temp made for `val` of type `ty`.
#[derive(Debug, Clone, Copy, PartialEq, Eq, Structural)]
pub struct ConstEntry {
    pub ty: Type,
    pub val: u64,
    pub idx: TempIdx,
}

/// The temp that the first entry of `s` for (`ty`, `val`) names, if any.
pub open spec fn find_const(s: Seq<ConstEntry>, ty: Type, val: u64) -> Option<TempIdx>
    decreases s.len(),
{
    if s.len() == 0 {
        None
    } else if s[0].ty == ty && s[0].val == val {
        Some(s[0].idx)
    } else {
        find_const(s.drop_first(), ty, val)
    }
}

pub proof fn lemma_find_const_push(s: Seq<ConstEntry>, e: ConstEntry, ty: Type, val: u64)
    ensures
        find_const(s, ty, val) is Some ==> find_const(s.push(e), ty, val) == find_const(s, ty, val),
        find_const(s, ty, val) is None && e.ty == ty && e.val == val ==> find_const(s.push(e), ty, val) == Some(e.idx),
        find_const(s, ty, val) is None && !(e.ty == ty && e.val == val) ==> find_const(s.push(e), ty, val) is None,
    decreases s.len(),
{
    let sp = s.push(e);
    assert(sp.len() > 0);
    if s.len() == 0 {
        assert(sp.drop_first() =~= Seq::<ConstEntry>::empty());
        assert(sp[0] == e);
        assert(find_const(sp.drop_first(), ty, val) is None);
    } else {
        assert(sp.drop_first() =~= s.drop_first().push(e));
        assert(sp[0] == s[0]);
        lemma_find_const_push(s.drop_first(), e, ty, val);
    }
}

/// The register-allocation state of a temp as a reset leaves it: fixed temps
/// stay in their register but lose memory coherence; globals go back to memory.
pub open spec fn reset_temp(t: Temp) -> Temp {
    match t.kind {
        TempKind::Fixed => Temp { mem_coherent: false, ..t },
        TempKind::Global => Temp { val_type: TempVal::Mem, reg: None, mem_coherent: true, ..t },
        _ => t,
    }
}

/// Round `x` down to a multiple of the power of two `s`.
pub open spec fn align_down(x: int, s: int) -> int {
    x - x % s
}

/// Per-translation context: temporaries, IR ops, labels, and register
/// allocation metadata for one translation block.
pub struct Context {
    pub temps: Vec<Temp>,
    pub ops: Vec<Op>,
    pub labels: Vec<Label>,
    /// Number of global temps (always at the front of `temps`).
    pub nb_globals: u32,
    /// Host register used as the frame pointer for spill slots.
    pub frame_reg: Option<u8>,
    /// Start offset of the spill area.
    pub frame_start: i64,
    /// End offset of the spill area.
    pub frame_end: i64,
    /// Next free byte in the spill area.
    pub frame_alloc_end: i64,
    /// Registers reserved by the backend.
    pub reserved_regs: RegSet,
    /// Constant deduplication table.
    pub consts: Vec<ConstEntry>,
    /// End offset in host code of each guest instruction.
    pub gen_insn_end_off: Vec<u16>,
    /// Index of the translation block being generated; it tags the block's
    /// exit values.
    pub tb_idx: u32,
}

impl Context {
    pub open spec fn temps_view(&self) -> Seq<Temp> {
        self.temps@
    }

    pub open spec fn ops_view(&self) -> Seq<Op> {
        self.ops@
    }

    pub open spec fn labels_view(&self) -> Seq<Label> {
        self.labels@
    }

    pub open spec fn consts_view(&self) -> Seq<ConstEntry> {
        self.consts@
    }

    pub open spec fn spec_nb_globals(&self) -> nat {
        self.nb_globals as nat
    }

    /// The well-formedness of a context: the globals are a prefix of the temps
    /// and every count fits in 32 bits.
    pub open spec fn wf(&self) -> bool {
        &&& self.spec_nb_globals() <= self.temps_view().len()
        &&& self.temps_view().len() < u32::MAX
        &&& self.ops_view().len() < u32::MAX
        &&& self.labels_view().len() < u32::MAX
    }

    /// The const temp that `new_const(ty, val)` would give back, if one was made.
    pub open spec fn const_of(&self, ty: Type, val: u64) -> Option<TempIdx> {
        find_const(self.consts_view(), ty, val)
    }

    /// The frame, reserved registers, instruction end offsets and block index
    /// of `self` and `other` agree.
    pub open spec fn same_settings(&self, other: &Context) -> bool {
        &&& self.frame_reg == other.frame_reg
        &&& self.frame_start == other.frame_start
        &&& self.frame_end == other.frame_end
        &&& self.frame_alloc_end == other.frame_alloc_end
        &&& self.reserved_regs == other.reserved_regs
        &&& self.gen_insn_end_off@ == other.gen_insn_end_off@
    }

    /// Everything but the ops of `self` and `other` agree.
    pub open spec fn same_but_ops(&self, other: &Context) -> bool {
        &&& self.temps_view() == other.temps_view()
        &&& self.labels_view() == other.labels_view()
        &&& self.consts_view() == other.consts_view()
        &&& self.spec_nb_globals() == other.spec_nb_globals()
        &&& self.same_settings(other)
    }

    /// Everything but the temps of `self` and `other` agree.
    pub open spec fn same_but_temps(&self, other: &Context) -> bool {
        &&& self.ops_view() == other.ops_view()
        &&& self.labels_view() == other.labels_view()
        &&& self.consts_view() == other.consts_view()
        &&& self.spec_nb_globals() == other.spec_nb_globals()
        &&& self.same_settings(other)
    }

    /// Everything but the labels of `self` and `other` agree.
    pub open spec fn same_but_labels(&self, other: &Context) -> bool {
        &&& self.ops_view() == other.ops_view()
        &&& self.temps_view() == other.temps_view()
        &&& self.consts_view() == other.consts_view()
        &&& self.spec_nb_globals() == other.spec_nb_globals()
        &&& self.same_settings(other)
    }

    /// An empty context.
    pub fn new() -> (c: Self)
        ensures
            c.wf(),
            c.temps_view().len() == 0,
            c.ops_view().len() == 0,
            c.labels_view().len() == 0,
            c.consts_view().len() == 0,
            c.spec_nb_globals() == 0,
            c.frame_reg is None,
            c.frame_start == 0,
            c.frame_end == 0,
            c.frame_alloc_end == 0,
            c.reserved_regs == RegSet(0),
            c.gen_insn_end_off@.len() == 0,
            c.tb_idx == 0,
    {
        Context {
            temps: Vec::with_capacity(256),
            ops: Vec::with_capacity(512),
            labels: Vec::with_capacity(32),
            nb_globals: 0,
            frame_reg: None,
            frame_start: 0,
            frame_end: 0,
            frame_alloc_end: 0,
            reserved_regs: RegSet(0),
            consts: Vec::new(),
            gen_insn_end_off: Vec::with_capacity(MAX_INSNS),
            tb_idx: 0,
        }
    }

    /// Reset for translating a new block: keeps the globals (with their
    /// allocation state reset), drops locals, ops, labels and constants.
    #[verifier::loop_isolation(false)]
    pub fn reset(&mut self)
        requires
            old(self).wf(),
        ensures
            final(self).wf(),
            final(self).temps_view() == old(self).temps_view().subrange(
                0,
                old(self).spec_nb_globals() as int,
            ).map_values(|t: Temp| reset_temp(t)),
            final(self).spec_nb_globals() == old(self).spec_nb_globals(),
            final(self).ops_view().len() == 0,
            final(self).labels_view().len() == 0,
            final(self).consts_view().len() == 0,
            final(self).gen_insn_end_off@.len() == 0,
            final(self).frame_alloc_end == old(self).frame_start,
            final(self).frame_reg == old(self).frame_reg,
            final(self).frame_start == old(self).frame_start,
            final(self).frame_end == old(self).frame_end,
            final(self).reserved_regs == old(self).reserved_regs,
            final(self).tb_idx == old(self).tb_idx,
    {
        let n = self.nb_globals as usize;
        self.temps.truncate(n);
        let ghost kept = self.temps@;
        let mut i: usize = 0;
        while i < n
            invariant
                n == kept.len(),
                n == self.nb_globals,
                self.nb_globals == old(self).nb_globals,
                self.frame_reg == old(self).frame_reg,
                self.frame_start == old(self).frame_start,
                self.frame_end == old(self).frame_end,
                self.reserved_regs == old(self).reserved_regs,
                self.tb_idx == old(self).tb_idx,
                i <= n,
                self.temps@.len() == n,
                forall|k: int| 0 <= k < i ==> #[trigger] self.temps@[k] == reset_temp(kept[k]),
                forall|k: int| i <= k < n ==> #[trigger] self.temps@[k] == kept[k],
            decreases n - i,
        {
            let t = &mut self.temps[i];
            match t.kind {
                TempKind::Fixed => {
                    t.mem_coherent = false;
                },
                TempKind::Global => {
                    t.val_type = TempVal::Mem;
                    t.reg = None;
                    t.mem_coherent = true;
                },
                _ => {},
            }
            i = i + 1;
        }
        self.ops.clear();
        self.labels.clear();
        self.consts.clear();
        self.gen_insn_end_off.clear();
        self.frame_alloc_end = self.frame_start;
        assert(self.temps@ =~= kept.map_values(|t: Temp| reset_temp(t)));
    }

    pub fn nb_globals(&self) -> (r: u32)
        ensures
            r == self.spec_nb_globals(),
    {
        self.nb_globals
    }

    pub fn nb_temps(&self) -> (r: u32)
        requires
            self.wf(),
        ensures
            r == self.temps_view().len(),
    {
        self.temps.len() as u32
    }

    /// Allocate a new EBB-scoped temporary.
    pub fn new_temp(&mut self, ty: Type) -> (r: TempIdx)
        requires
            old(self).wf(),
            old(self).temps_view().len() + 1 < u32::MAX,
        ensures
            final(self).wf(),
            r.0 == old(self).temps_view().len(),
            final(self).temps_view() == old(self).temps_view().push(
                final(self).temps_view().last(),
            ),
            final(self).temps_view().last().idx == r,
            final(self).temps_view().last().ty == ty,
            final(self).temps_view().last().kind == TempKind::Ebb,
            final(self).temps_view().last().val_type == TempVal::Dead,
            final(self).temps_view().last().reg is None,
            !final(self).temps_view().last().mem_allocated,
            !final(self).temps_view().last().mem_coherent,
            final(self).same_but_temps(old(self)),
    {
        let idx = TempIdx(self.temps.len() as u32);
        self.temps.push(Temp::new_ebb(idx, ty));
        idx
    }

    /// Allocate a new TB-scoped temporary.
    pub fn new_temp_tb(&mut self, ty: Type) -> (r: TempIdx)
        requires
            old(self).wf(),
            old(self).temps_view().len() + 1 < u32::MAX,
        ensures
            final(self).wf(),
            r.0 == old(self).temps_view().len(),
            final(self).temps_view() == old(self).temps_view().push(
                final(self).temps_view().last(),
            ),
            final(self).temps_view().last().idx == r,
            final(self).temps_view().last().ty == ty,
            final(self).temps_view().last().kind == TempKind::Tb,
            final(self).temps_view().last().val_type == TempVal::Dead,
            final(self).temps_view().last().reg is None,
            !final(self).temps_view().last().mem_allocated,
            !final(self).temps_view().last().mem_coherent,
            final(self).same_but_temps(old(self)),
    {
        let idx = TempIdx(self.temps.len() as u32);
        self.temps.push(Temp::new_tb(idx, ty));
        idx
    }

    /// Get or create a constant temp, deduplicated per type and value.
    pub fn new_const(&mut self, ty: Type, val: u64) -> (r: TempIdx)
        requires
            old(self).wf(),
            old(self).temps_view().len() + 1 < u32::MAX,
        ensures
            final(self).wf(),
            final(self).const_of(ty, val) == Some(r),
            old(self).const_of(ty, val) matches Some(i) ==> r == i && final(self).temps_view()
                == old(self).temps_view() && final(self).consts_view() == old(self).consts_view(),
            old(self).const_of(ty, val) is None ==> {
                &&& r.0 == old(self).temps_view().len()
                &&& final(self).temps_view().len() == old(self).temps_view().len() + 1
                &&& final(self).temps_view().subrange(0, old(self).temps_view().len() as int)
                    == old(self).temps_view()
                &&& final(self).temps_view().last().idx == r
                &&& final(self).temps_view().last().kind == TempKind::Const
                &&& final(self).temps_view().last().val_type == TempVal::Const
                &&& final(self).temps_view().last().ty == ty
                &&& final(self).temps_view().last().val == val
                &&& final(self).consts_view() == old(self).consts_view().push(
                    ConstEntry { ty, val, idx: r },
                )
            },
            final(self).ops_view() == old(self).ops_view(),
            final(self).labels_view() == old(self).labels_view(),
            final(self).spec_nb_globals() == old(self).spec_nb_globals(),
            final(self).frame_reg == old(self).frame_reg,
            final(self).frame_start == old(self).frame_start,
            final(self).frame_end == old(self).frame_end,
            final(self).frame_alloc_end == old(self).frame_alloc_end,
            final(self).reserved_regs == old(self).reserved_regs,
            final(self).gen_insn_end_off@ == old(self).gen_insn_end_off@,
    {
        let mut i: usize = 0;
        let n = self.consts.len();
        assert(self.consts@.subrange(0, n as int) =~= self.consts@);
        while i < n
            invariant
                n == self.consts@.len(),
                self.wf(),
                i <= n,
                find_const(self.consts@, ty, val) == find_const(
                    self.consts@.subrange(i as int, n as int),
                    ty,
                    val,
                ),
            decreases n - i,
        {
            let e = self.consts[i];
            assert(self.consts@.subrange(i as int, n as int).drop_first() =~= self.consts@.subrange(
                i + 1,
                n as int,
            ));
            if e.ty == ty && e.val == val {
                assert(self.consts@.subrange(i as int, n as int)[0] == e);
                return e.idx;
            }
            i = i + 1;
        }
        assert(self.consts@.subrange(n as int, n as int) =~= Seq::<ConstEntry>::empty());
        let idx = TempIdx(self.temps.len() as u32);
        self.temps.push(Temp::new_const(idx, ty, val));
        let e = ConstEntry { ty, val, idx };
        proof {
            lemma_find_const_push(self.consts@, e, ty, val);
        }
        self.consts.push(e);
        assert(self.temps@.subrange(0, self.temps@.len() - 1) =~= old(self).temps@);
        idx
    }

    /// Register a global temp; globals come before any other temp.
    pub fn new_global(&mut self, ty: Type, base: TempIdx, offset: i64, name: &'static str) -> (r:
        TempIdx)
        requires
            old(self).wf(),
            old(self).temps_view().len() == old(self).spec_nb_globals(),
            old(self).temps_view().len() + 1 < u32::MAX,
        ensures
            final(self).wf(),
            r.0 == old(self).temps_view().len(),
            final(self).spec_nb_globals() == old(self).spec_nb_globals() + 1,
            final(self).temps_view() == old(self).temps_view().push(
                final(self).temps_view().last(),
            ),
            final(self).temps_view().last().idx == r,
            final(self).temps_view().last().ty == ty,
            final(self).temps_view().last().kind == TempKind::Global,
            final(self).temps_view().last().val_type == TempVal::Mem,
            final(self).temps_view().last().reg is None,
            final(self).temps_view().last().mem_base == Some(base),
            final(self).temps_view().last().mem_offset == offset,
            final(self).temps_view().last().name == Some(name),
            final(self).temps_view().last().mem_coherent,
            final(self).temps_view().last().mem_allocated,
            final(self).ops_view() == old(self).ops_view(),
            final(self).labels_view() == old(self).labels_view(),
            final(self).consts_view() == old(self).consts_view(),
            final(self).frame_reg == old(self).frame_reg,
            final(self).reserved_regs == old(self).reserved_regs,
    {
        let idx = TempIdx(self.temps.len() as u32);
        self.temps.push(Temp::new_global(idx, ty, base, offset, name));
        self.nb_globals = self.nb_globals + 1;
        idx
    }

    /// Register a temp fixed to a host register; it counts as a global.
    pub fn new_fixed(&mut self, ty: Type, reg: u8, name: &'static str) -> (r: TempIdx)
        requires
            old(self).wf(),
            old(self).temps_view().len() == old(self).spec_nb_globals(),
            old(self).temps_view().len() + 1 < u32::MAX,
        ensures
            final(self).wf(),
            r.0 == old(self).temps_view().len(),
            final(self).spec_nb_globals() == old(self).spec_nb_globals() + 1,
            final(self).temps_view() == old(self).temps_view().push(
                final(self).temps_view().last(),
            ),
            final(self).temps_view().last().idx == r,
            final(self).temps_view().last().ty == ty,
            final(self).temps_view().last().kind == TempKind::Fixed,
            final(self).temps_view().last().val_type == TempVal::Reg,
            final(self).temps_view().last().reg == Some(reg),
            final(self).temps_view().last().name == Some(name),
            final(self).ops_view() == old(self).ops_view(),
            final(self).labels_view() == old(self).labels_view(),
            final(self).consts_view() == old(self).consts_view(),
            final(self).frame_reg == old(self).frame_reg,
            final(self).reserved_regs == old(self).reserved_regs,
    {
        let idx = TempIdx(self.temps.len() as u32);
        self.temps.push(Temp::new_fixed(idx, ty, reg, name));
        self.nb_globals = self.nb_globals + 1;
        idx
    }

    pub fn temp(&self, idx: TempIdx) -> (r: &Temp)
        requires
            idx.0 < self.temps_view().len(),
        ensures
            *r == self.temps_view()[idx.0 as int],
    {
        &self.temps[idx.0 as usize]
    }

    pub fn temp_mut(&mut self, idx: TempIdx) -> (r: &mut Temp)
        requires
            idx.0 < old(self).temps_view().len(),
        ensures
            *r == old(self).temps_view()[idx.0 as int],
            final(self).temps_view() == old(self).temps_view().update(idx.0 as int, *final(r)),
            final(self).same_but_temps(old(self)),
    {
        &mut self.temps[idx.0 as usize]
    }

    pub fn temps(&self) -> (r: &[Temp])
        ensures
            r@ == self.temps_view(),
    {
        self.temps.as_slice()
    }

    /// The global temps only.
    pub fn globals(&self) -> (r: &[Temp])
        requires
            self.wf(),
        ensures
            r@ == self.temps_view().subrange(0, self.spec_nb_globals() as int),
    {
        vstd::slice::slice_subrange(self.temps.as_slice(), 0, self.nb_globals as usize)
    }

    /// Append an op; returns the op's own index field.
    pub fn emit_op(&mut self, op: Op) -> (r: OpIdx)
        requires
            old(self).wf(),
            old(self).ops_view().len() + 1 < u32::MAX,
        ensures
            final(self).wf(),
            r == op.idx,
            final(self).ops_view() == old(self).ops_view().push(op),
            final(self).same_but_ops(old(self)),
    {
        let idx = op.idx;
        self.ops.push(op);
        idx
    }

    pub fn next_op_idx(&self) -> (r: OpIdx)
        requires
            self.wf(),
        ensures
            r.0 == self.ops_view().len(),
    {
        OpIdx(self.ops.len() as u32)
    }

    pub fn op(&self, idx: OpIdx) -> (r: &Op)
        requires
            idx.0 < self.ops_view().len(),
        ensures
            *r == self.ops_view()[idx.0 as int],
    {
        &self.ops[idx.0 as usize]
    }

    pub fn op_mut(&mut self, idx: OpIdx) -> (r: &mut Op)
        requires
            idx.0 < old(self).ops_view().len(),
        ensures
            *r == old(self).ops_view()[idx.0 as int],
            final(self).ops_view() == old(self).ops_view().update(idx.0 as int, *final(r)),
            final(self).same_but_ops(old(self)),
    {
        &mut self.ops[idx.0 as usize]
    }

    pub fn ops(&self) -> (r: &[Op])
        ensures
            r@ == self.ops_view(),
    {
        self.ops.as_slice()
    }

    pub fn num_ops(&self) -> (r: usize)
        ensures
            r == self.ops_view().len(),
    {
        self.ops.len()
    }

    /// Create a new label; its id is its position.
    pub fn new_label(&mut self) -> (r: u32)
        requires
            old(self).wf(),
            old(self).labels_view().len() + 1 < u32::MAX,
        ensures
            final(self).wf(),
            r == old(self).labels_view().len(),
            final(self).labels_view().len() == old(self).labels_view().len() + 1,
            final(self).labels_view().subrange(0, r as int) == old(self).labels_view(),
            final(self).labels_view()[r as int].id == r,
            !final(self).labels_view()[r as int].present,
            !final(self).labels_view()[r as int].has_value,
            final(self).labels_view()[r as int].uses@.len() == 0,
            final(self).same_but_labels(old(self)),
    {
        let id = self.labels.len() as u32;
        self.labels.push(Label::new(id));
        assert(self.labels@.subrange(0, id as int) =~= old(self).labels@);
        id
    }

    pub fn label(&self, id: u32) -> (r: &Label)
        requires
            id < self.labels_view().len(),
        ensures
            *r == self.labels_view()[id as int],
    {
        &self.labels[id as usize]
    }

    pub fn label_mut(&mut self, id: u32) -> (r: &mut Label)
        requires
            id < old(self).labels_view().len(),
        ensures
            *r == old(self).labels_view()[id as int],
            final(self).labels_view() == old(self).labels_view().update(id as int, *final(r)),
            final(self).same_but_labels(old(self)),
    {
        &mut self.labels[id as usize]
    }

    pub fn labels(&self) -> (r: &[Label])
        ensures
            r@ == self.labels_view(),
    {
        self.labels.as_slice()
    }

    /// Configure the stack frame for spilling.
    pub fn set_frame(&mut self, reg: u8, start: i64, size: i64)
        requires
            i64::MIN <= start + size <= i64::MAX,
        ensures
            final(self).frame_reg == Some(reg),
            final(self).frame_start == start,
            final(self).frame_end == start + size,
            final(self).frame_alloc_end == start,
            final(self).temps_view() == old(self).temps_view(),
            final(self).ops_view() == old(self).ops_view(),
            final(self).labels_view() == old(self).labels_view(),
            final(self).consts_view() == old(self).consts_view(),
            final(self).spec_nb_globals() == old(self).spec_nb_globals(),
            final(self).reserved_regs == old(self).reserved_regs,
            final(self).gen_insn_end_off@ == old(self).gen_insn_end_off@,
    {
        self.frame_reg = Some(reg);
        self.frame_start = start;
        self.frame_end = start + size;
        self.frame_alloc_end = start;
    }

    /// Where a spill slot for a temp of `size` bytes would start.
    pub open spec fn spill_slot(&self, size: int) -> int {
        align_down(self.frame_alloc_end + size - 1, size)
    }

    /// Allocate (once) a stack slot for a temp that needs spilling; returns its
    /// offset from the frame register. Slots are aligned to their size.
    pub fn alloc_temp_frame(&mut self, tidx: TempIdx) -> (r: i64)
        requires
            tidx.0 < old(self).temps_view().len(),
            !old(self).temps_view()[tidx.0 as int].mem_allocated ==> {
                let sz = old(self).temps_view()[tidx.0 as int].ty.spec_size_bits() / 8;
                &&& 0 <= old(self).frame_alloc_end
                &&& old(self).spill_slot(sz as int) + sz <= old(self).frame_end
            },
        ensures
            old(self).temps_view()[tidx.0 as int].mem_allocated ==> r == old(
                self,
            ).temps_view()[tidx.0 as int].mem_offset && final(self).temps_view() == old(
                self,
            ).temps_view() && final(self).frame_alloc_end == old(self).frame_alloc_end,
            !old(self).temps_view()[tidx.0 as int].mem_allocated ==> {
                let sz = old(self).temps_view()[tidx.0 as int].ty.spec_size_bits() / 8;
                &&& r == old(self).spill_slot(sz as int)
                &&& (r as int) % (sz as int) == 0
                &&& r >= old(self).frame_alloc_end
                &&& final(self).frame_alloc_end == r + sz
                &&& final(self).temps_view() == old(self).temps_view().update(
                    tidx.0 as int,
                    Temp {
                        mem_allocated: true,
                        mem_offset: r,
                        ..old(self).temps_view()[tidx.0 as int]
                    },
                )
            },
            final(self).ops_view() == old(self).ops_view(),
            final(self).labels_view() == old(self).labels_view(),
            final(self).consts_view() == old(self).consts_view(),
            final(self).spec_nb_globals() == old(self).spec_nb_globals(),
            final(self).frame_reg == old(self).frame_reg,
            final(self).frame_start == old(self).frame_start,
            final(self).frame_end == old(self).frame_end,
            final(self).reserved_regs == old(self).reserved_regs,
            final(self).gen_insn_end_off@ == old(self).gen_insn_end_off@,
    {
        let t = &self.temps[tidx.0 as usize];
        if t.mem_allocated {
            return t.mem_offset;
        }
        let size = t.ty.size_bytes() as i64;
        let x = self.frame_alloc_end + size - 1;
        let offset = x & !(size - 1);
        proof {
            lemma_align_down_pow2(x, size);
        }
        self.frame_alloc_end = offset + size;
        let t = &mut self.temps[tidx.0 as usize];
        t.mem_allocated = true;
        t.mem_offset = offset;
        offset
    }
}

/// What `same_settings` states, field by field.
pub proof fn lemma_same_settings(a: &Context, b: &Context)
    requires
        a.same_settings(b),
    ensures
        a.frame_reg == b.frame_reg,
        a.frame_start == b.frame_start,
        a.frame_end == b.frame_end,
        a.frame_alloc_end == b.frame_alloc_end,
        a.reserved_regs == b.reserved_regs,
        a.gen_insn_end_off@ == b.gen_insn_end_off@,
{
}

proof fn lemma_align_down_pow2(x: i64, s: i64)
    requires
        s == 4 || s == 8 || s == 16 || s == 32,
        x >= 0,
    ensures
        x & !((s - 1) as i64) == align_down(x as int, s as int),
        (x & !((s - 1) as i64)) % s == 0,
        x - s < x & !((s - 1) as i64) <= x,
{
    if s == 4 {
        assert(x >= 0 ==> x & !3i64 == x - x % 4 && (x & !3i64) % 4 == 0) by (bit_vector);
    } else if s == 8 {
        assert(x >= 0 ==> x & !7i64 == x - x % 8 && (x & !7i64) % 8 == 0) by (bit_vector);
    } else if s == 16 {
        assert(x >= 0 ==> x & !15i64 == x - x % 16 && (x & !15i64) % 16 == 0) by (bit_vector);
    } else {
        assert(x >= 0 ==> x & !31i64 == x - x % 32 && (x & !31i64) % 32 == 0) by (bit_vector);
    }
}

/// Constant deduplication: once the table knows a temp for a type and a value,
/// adding further entries never changes which temp it gives for them.
pub proof fn lemma_const_lookup_stable(s: Seq<ConstEntry>, e: ConstEntry, ty: Type, val: u64)
    requires
        find_const(s, ty, val) is Some,
    ensures
        find_const(s.push(e), ty, val) == find_const(s, ty, val),
{
    lemma_find_const_push(s, e, ty, val);
}

} // verus!
