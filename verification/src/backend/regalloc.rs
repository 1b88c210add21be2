use vstd::prelude::*;

use crate::backend::code_buffer::CodeBuffer;
use crate::backend::codegen::{
    is_arith_op, is_cond_op, is_mem_op, is_misc_op, lemma_out_op_len, regs_valid, CodegenError, X86_64CodeGen, MAX_OP_BYTES,
};
use crate::backend::constraint::{ArgConstraint, OpConstraint};
use crate::backend::constraints::op_constraint;
use crate::backend::emitter::enc_store;
use crate::backend::regs::Reg;
use crate::context::Context;
use crate::label::RelocKind;
use crate::op::Op;
use crate::opcode::{lemma_opcode_arg_counts, OpFlags, Opcode};
use crate::temp::{Temp, TempIdx, TempKind};
use crate::types::{RegSet, TempVal, Type};

verus! {

broadcast use crate::backend::enc::group_enc_len;

/// Why code generation for a block failed.
#[derive(Debug, Clone, Copy, PartialEq, Eq, Structural)]
pub enum RegAllocError {
    /// No register satisfies an argument's constraint.
    NoRegister,
    /// A dead temp was read.
    DeadTemp,
    /// An op names a temp that does not exist, or a temp that should be in a
    /// register (or have a base register) has none.
    BadTemp,
    /// An op names a label that does not exist, or a recorded jump lies
    /// outside the buffer.
    BadLabel,
    /// A constraint's alias refers to an argument the op does not have.
    BadConstraint,
    /// The code buffer is full.
    BufferFull,
    /// The code generator cannot lower an op.
    Codegen(CodegenError),
}

/// The register allocator's state: the temp held by each host register and
/// the free allocatable registers.
pub struct RegAllocState {
    pub reg_to_temp: [Option<TempIdx>; 16],
    pub free_regs: RegSet,
    pub allocatable: RegSet,
}

impl RegAllocState {
    /// Allocatable registers are host registers (numbered below 16); a free
    /// register is allocatable and holds no temp.
    pub open spec fn wf(&self) -> bool {
        &&& forall|r: u64| #[trigger] self.allocatable.has(r) ==> r < 16
        &&& forall|r: u64|
            #[trigger] self.free_regs.has(r) ==> self.allocatable.has(r) && self.reg_to_temp@[r as int] is None
    }

    /// All allocatable registers free, none holding a temp.
    pub fn new(allocatable: RegSet) -> (s: Self)
        requires
            forall|r: u64| #[trigger] allocatable.has(r) ==> r < 16,
        ensures
            s.wf(),
            s.allocatable == allocatable,
            s.free_regs == allocatable,
            forall|r: int| 0 <= r < 16 ==> #[trigger] s.reg_to_temp@[r] is None,
    {
        RegAllocState {
            reg_to_temp: [None, None, None, None, None, None, None, None, None, None, None, None, None, None, None, None],
            free_regs: allocatable,
            allocatable,
        }
    }

    /// Register `reg` no longer holds a temp (and is free again when it is
    /// allocatable).
    pub fn free_reg(&mut self, reg: u8)
        requires
            old(self).wf(),
            reg < 16,
        ensures
            final(self).wf(),
            final(self).allocatable == old(self).allocatable,
            final(self).reg_to_temp@ == old(self).reg_to_temp@.update(reg as int, None),
            forall|r: u64| #[trigger] final(self).free_regs.has(r) <==> (old(self).free_regs.has(r) || (r
                == reg && old(self).allocatable.has(r))),
    {
        self.reg_to_temp[reg as usize] = None;
        if self.allocatable.contains(reg) {
            self.free_regs = self.free_regs.set(reg);
        }
    }

    /// Register `reg` now holds temp `t`.
    pub fn assign(&mut self, reg: u8, t: TempIdx)
        requires
            old(self).wf(),
            reg < 16,
        ensures
            final(self).wf(),
            final(self).allocatable == old(self).allocatable,
            final(self).reg_to_temp@ == old(self).reg_to_temp@.update(reg as int, Some(t)),
            forall|r: u64| #[trigger] final(self).free_regs.has(r) <==> (old(self).free_regs.has(r) && r
                != reg),
    {
        self.reg_to_temp[reg as usize] = Some(t);
        self.free_regs = self.free_regs.clear(reg);
    }
}

/// `new` is `old` with only its temps changed.
pub open spec fn temps_only(new: &Context, old: &Context) -> bool {
    &&& new.wf()
    &&& new.same_but_temps(old)
    &&& new.temps_view().len() == old.temps_view().len()
}

/// `new` is `old` with code added (and earlier code possibly patched).
pub open spec fn advanced(new: &CodeBuffer, old: &CodeBuffer) -> bool {
    &&& new.wf()
    &&& new.data@.len() == old.data@.len()
    &&& old.offset <= new.offset
}

/// `new` is `old` with code only added: every byte before `old`'s write
/// position is as it was.
pub open spec fn appended(new: &CodeBuffer, old: &CodeBuffer) -> bool {
    &&& advanced(new, old)
    &&& untouched_below(new, old, old.offset as int)
}

/// The bytes of `new` before position `n` are those of `old`.
pub open spec fn untouched_below(new: &CodeBuffer, old: &CodeBuffer, n: int) -> bool {
    forall|i: int| 0 <= i < n ==> #[trigger] new.data@[i] == old.data@[i]
}

/// Every jump recorded on a label lies at or after position `n`.
pub open spec fn uses_from(labels: Seq<crate::label::Label>, n: int) -> bool {
    forall|l: int, k: int|
        0 <= l < labels.len() && 0 <= k < labels[l].uses@.len() ==> n <= (#[trigger] labels[l].uses@[k]).offset
}

/// The set holding just `reg`.
fn single(reg: u8) -> (s: RegSet)
    requires
        reg < 64,
    ensures
        forall|j: u64| #[trigger] s.has(j) <==> j == reg,
{
    proof {
        crate::types::lemma_regset_empty();
    }
    RegSet::new().set(reg)
}

/// Whether one more op's worth of code fits.
fn has_space(buf: &CodeBuffer) -> (r: bool)
    requires
        buf.wf(),
    ensures
        r == buf.has_room(MAX_OP_BYTES as int),
{
    buf.remaining() >= MAX_OP_BYTES
}

/// What writing temp `tidx` back gives: no code when memory is up to date
/// or the temp has no register or no base temp; else the store of its
/// register to `[base + offset]`, with `BadTemp` when the base temp does not
/// exist or has no register or a register is not a host register, and
/// `BufferFull` when one more op does not fit.
pub open spec fn sync_outcome(ctx: &Context, tidx: TempIdx, buf: &CodeBuffer) -> Result<Option<Seq<u8>>, RegAllocError> {
    let t = ctx.temps_view()[tidx.0 as int];
    if t.mem_coherent || t.reg is None || t.mem_base is None {
        Ok(None)
    } else {
        let b = t.mem_base->0;
        if b.0 >= ctx.temps_view().len() || ctx.temps_view()[b.0 as int].reg is None {
            Err(RegAllocError::BadTemp)
        } else {
            let base_reg = ctx.temps_view()[b.0 as int].reg->0;
            if t.reg->0 >= 16 || base_reg >= 16 {
                Err(RegAllocError::BadTemp)
            } else if !buf.has_room(MAX_OP_BYTES as int) {
                Err(RegAllocError::BufferFull)
            } else {
                Ok(Some(enc_store(t.ty == Type::I64, Reg::spec_from_num(t.reg->0), Reg::spec_from_num(base_reg), t.mem_offset as i32)))
            }
        }
    }
}

/// Store a register temp back to its memory slot, unless memory is already
/// up to date.
fn temp_sync(ctx: &Context, backend: &X86_64CodeGen, buf: &mut CodeBuffer, tidx: TempIdx) -> (r: Result<
    (),
    RegAllocError,
>)
    requires
        old(buf).wf(),
        tidx.0 < ctx.temps_view().len(),
    ensures
        appended(final(buf), old(buf)),
        match sync_outcome(ctx, tidx, old(buf)) {
            Ok(None) => r is Ok && *final(buf) == *old(buf),
            Ok(Some(code)) => r is Ok && final(buf).emitted(old(buf), code),
            Err(e) => r == Err::<(), RegAllocError>(e) && *final(buf) == *old(buf),
        },
{
    let temp = ctx.temps[tidx.0 as usize];
    if temp.mem_coherent {
        return Ok(());
    }
    if let (Some(reg), Some(base_idx)) = (temp.reg, temp.mem_base) {
        if base_idx.0 as usize >= ctx.temps.len() {
            return Err(RegAllocError::BadTemp);
        }
        let base_reg = match ctx.temps[base_idx.0 as usize].reg {
            Some(b) => b,
            None => {
                return Err(RegAllocError::BadTemp);
            },
        };
        if reg >= 16 || base_reg >= 16 {
            return Err(RegAllocError::BadTemp);
        }
        if !has_space(buf) {
            return Err(RegAllocError::BufferFull);
        }
        backend.tcg_out_st(buf, temp.ty, reg, base_reg, temp.mem_offset);
    }
    Ok(())
}

/// `reg`'s temp `t` evicted from `os`/`oc` to `ns`/`nc`: a global or fixed
/// temp now lives in memory, up to date, and `reg` holds nothing; a local
/// moved to another register that was free; no other temp changed.
pub open spec fn evicted(oc: Context, nc: Context, os: RegAllocState, ns: RegAllocState, reg: u8, t: TempIdx) -> bool {
    let o = oc.temps_view()[t.0 as int];
    &&& t.0 < oc.temps_view().len()
    &&& forall|i: int|
        0 <= i < nc.temps_view().len() && i != t.0 ==> #[trigger] nc.temps_view()[i] == oc.temps_view()[i]
    &&& if o.spec_is_global_or_fixed() {
        &&& nc.temps_view()[t.0 as int] == (Temp { val_type: TempVal::Mem, reg: None, mem_coherent: true, ..o })
        &&& ns.reg_to_temp@ == os.reg_to_temp@.update(reg as int, None)
    } else {
        exists|d: u8|
            #![trigger os.free_regs.has(d as u64)]
            d != reg && d < 16 && os.free_regs.has(d as u64) && nc.temps_view()[t.0 as int] == (Temp {
                reg: Some(d),
                ..o
            }) && ns.reg_to_temp@ == os.reg_to_temp@.update(reg as int, None).update(d as int, Some(t))
    }
}

/// Evict the temp held by `reg`: a global is written back and left in
/// memory; a local moves to another free register.
fn evict_reg(
    ctx: &mut Context,
    state: &mut RegAllocState,
    backend: &X86_64CodeGen,
    buf: &mut CodeBuffer,
    reg: u8,
) -> (r: Result<(), RegAllocError>)
    requires
        old(ctx).wf(),
        old(state).wf(),
        old(buf).wf(),
        reg < 16,
    ensures
        temps_only(final(ctx), old(ctx)),
        final(state).wf(),
        final(state).allocatable == old(state).allocatable,
        appended(final(buf), old(buf)),
        r is Ok ==> final(state).reg_to_temp@[reg as int] is None,
        old(state).reg_to_temp@[reg as int] is None ==> r is Ok && *final(ctx) == *old(ctx) && *final(state)
            == *old(state) && *final(buf) == *old(buf),
        old(state).reg_to_temp@[reg as int] matches Some(t) && t.0 >= old(ctx).temps_view().len() ==> r
            == Err::<(), RegAllocError>(RegAllocError::BadTemp) && *final(ctx) == *old(ctx) && *final(state)
            == *old(state) && *final(buf) == *old(buf),
        r is Ok && old(state).reg_to_temp@[reg as int] is Some ==> evicted(
            *old(ctx),
            *final(ctx),
            *old(state),
            *final(state),
            reg,
            old(state).reg_to_temp@[reg as int]->0,
        ),
{
    let tidx = match state.reg_to_temp[reg as usize] {
        None => {
            return Ok(());
        },
        Some(t) => t,
    };
    if tidx.0 as usize >= ctx.temps.len() {
        return Err(RegAllocError::BadTemp);
    }
    let temp = ctx.temps[tidx.0 as usize];
    if temp.is_global_or_fixed() {
        let r = temp_sync(ctx, backend, buf, tidx);
        if let Err(e) = r {
            return Err(e);
        }
        let mut t = ctx.temps[tidx.0 as usize];
        t.val_type = TempVal::Mem;
        t.reg = None;
        t.mem_coherent = true;
        ctx.temps.set(tidx.0 as usize, t);
        state.free_reg(reg);
        assert(ctx.temps_view()[tidx.0 as int] == (Temp { val_type: TempVal::Mem, reg: None, mem_coherent: true, ..temp }));
    } else {
        let free = state.free_regs.subtract(single(reg));
        let dst = match free.first() {
            Some(d) => d,
            None => {
                return Err(RegAllocError::NoRegister);
            },
        };
        if !has_space(buf) {
            return Err(RegAllocError::BufferFull);
        }
        proof {
            assert(free.has(dst as u64));
            assert(state.free_regs.has(dst as u64));
            assert(state.allocatable.has(dst as u64));
        }
        backend.tcg_out_mov(buf, temp.ty, dst, reg);
        state.free_reg(reg);
        state.assign(dst, tidx);
        let mut t = ctx.temps[tidx.0 as usize];
        t.reg = Some(dst);
        ctx.temps.set(tidx.0 as usize, t);
        proof {
            assert(dst != reg) by {
                assert(free.has(dst as u64));
            }
            assert(state.reg_to_temp@ =~= old(state).reg_to_temp@.update(reg as int, None).update(dst as int, Some(tidx)));
            assert(old(state).free_regs.has(dst as u64));
        }
    }
    Ok(())
}

/// Register `j` is free, allocatable, in `required` and not in `forbidden`.
pub open spec fn free_candidate(state: RegAllocState, required: RegSet, forbidden: RegSet, j: u64) -> bool {
    required.has(j) && state.allocatable.has(j) && !forbidden.has(j) && state.free_regs.has(j)
}

/// Pick a register in `required` (allocatable, not in `forbidden`):
/// a free one in `preferred` first, then any free one, then one whose
/// occupant is evicted; when every candidate is forbidden, evict the first
/// allowed register anyway.
fn reg_alloc(
    ctx: &mut Context,
    state: &mut RegAllocState,
    backend: &X86_64CodeGen,
    buf: &mut CodeBuffer,
    required: RegSet,
    forbidden: RegSet,
    preferred: RegSet,
) -> (r: Result<u8, RegAllocError>)
    requires
        old(ctx).wf(),
        old(state).wf(),
        old(buf).wf(),
    ensures
        temps_only(final(ctx), old(ctx)),
        final(state).wf(),
        final(state).allocatable == old(state).allocatable,
        appended(final(buf), old(buf)),
        r matches Ok(reg) ==> {
            &&& reg < 16
            &&& required.has(reg as u64)
            &&& old(state).allocatable.has(reg as u64)
            &&& final(state).reg_to_temp@[reg as int] is None
            &&& (exists|j: u64| required.has(j) && old(state).allocatable.has(j) && !forbidden.has(j))
                ==> !forbidden.has(reg as u64)
        },
        (exists|j: u64| free_candidate(*old(state), required, forbidden, j)) ==> {
            &&& r matches Ok(reg) && free_candidate(*old(state), required, forbidden, reg as u64)
                && ((exists|j: u64| free_candidate(*old(state), required, forbidden, j) && preferred.has(j)) ==> preferred.has(reg as u64))
            &&& *final(ctx) == *old(ctx)
            &&& *final(state) == *old(state)
            &&& *final(buf) == *old(buf)
        },
        !(exists|j: u64| required.has(j) && old(state).allocatable.has(j)) ==> r == Err::<u8, RegAllocError>(
            RegAllocError::NoRegister,
        ),
{
    let candidates = required.intersect(state.allocatable).subtract(forbidden);
    let pref_free = candidates.intersect(state.free_regs).intersect(preferred);
    if let Some(r) = pref_free.first() {
        assert(pref_free.has(r as u64));
        return Ok(r);
    }
    proof {
        crate::types::lemma_regset_empty();
        assert(pref_free == RegSet(0));
        assert forall|j: u64| !(free_candidate(*old(state), required, forbidden, j) && preferred.has(j)) by {
            assert(!pref_free.has(j));
        }
    }
    let any_free = candidates.intersect(state.free_regs);
    if let Some(r) = any_free.first() {
        assert(any_free.has(r as u64));
        return Ok(r);
    }
    proof {
        assert(any_free == RegSet(0));
        assert forall|j: u64| !free_candidate(*old(state), required, forbidden, j) by {
            assert(!any_free.has(j));
        }
    }
    if let Some(r) = candidates.first() {
        assert(candidates.has(r as u64));
        let e = evict_reg(ctx, state, backend, buf, r);
        if let Err(err) = e {
            return Err(err);
        }
        return Ok(r);
    }
    proof {
        crate::types::lemma_regset_empty();
        assert(candidates == RegSet(0));
        assert forall|j: u64| required.has(j) && state.allocatable.has(j) implies forbidden.has(j) by {
            assert(!candidates.has(j));
        }
    }
    let forced = required.intersect(state.allocatable);
    let r = match forced.first() {
        Some(r) => r,
        None => {
            return Err(RegAllocError::NoRegister);
        },
    };
    assert(forced.has(r as u64));
    let e = evict_reg(ctx, state, backend, buf, r);
    if let Err(err) = e {
        return Err(err);
    }
    Ok(r)
}

/// Temp `t` is already in a host register of `required` not in `forbidden`.
pub open spec fn in_place(t: Temp, required: RegSet, forbidden: RegSet) -> bool {
    &&& t.val_type is Reg
    &&& t.reg matches Some(c)
    &&& c < 16
    &&& required.has(c as u64)
    &&& !forbidden.has(c as u64)
}

/// Load temp `tidx` into a register of `required` not in `forbidden`
/// (preferring `preferred`): keep its register when that one fits, else
/// move it; materialize a constant; load a memory temp from its slot.
#[verifier::spinoff_prover]
fn temp_load_to(
    ctx: &mut Context,
    state: &mut RegAllocState,
    backend: &X86_64CodeGen,
    buf: &mut CodeBuffer,
    tidx: TempIdx,
    required: RegSet,
    forbidden: RegSet,
    preferred: RegSet,
) -> (r: Result<u8, RegAllocError>)
    requires
        old(ctx).wf(),
        old(state).wf(),
        old(buf).wf(),
    ensures
        temps_only(final(ctx), old(ctx)),
        final(state).wf(),
        final(state).allocatable == old(state).allocatable,
        appended(final(buf), old(buf)),
        r matches Ok(reg) ==> {
            &&& reg < 16
            &&& required.has(reg as u64)
            &&& tidx.0 < final(ctx).temps_view().len()
            &&& final(ctx).temps_view()[tidx.0 as int].reg == Some(reg)
        },
        tidx.0 >= old(ctx).temps_view().len() ==> r == Err::<u8, RegAllocError>(RegAllocError::BadTemp)
            && *final(ctx) == *old(ctx) && *final(state) == *old(state) && *final(buf) == *old(buf),
        tidx.0 < old(ctx).temps_view().len() && old(ctx).temps_view()[tidx.0 as int].val_type is Dead ==> r
            == Err::<u8, RegAllocError>(RegAllocError::DeadTemp) && *final(ctx) == *old(ctx) && *final(state)
            == *old(state) && *final(buf) == *old(buf),
        tidx.0 < old(ctx).temps_view().len() && in_place(old(ctx).temps_view()[tidx.0 as int], required, forbidden)
            ==> r == Ok::<u8, RegAllocError>(old(ctx).temps_view()[tidx.0 as int].reg->0) && *final(ctx) == *old(ctx)
            && *final(state) == *old(state) && *final(buf) == *old(buf),
{
    if tidx.0 as usize >= ctx.temps.len() {
        return Err(RegAllocError::BadTemp);
    }
    let i = tidx.0 as usize;
    let temp = ctx.temps[i];
    match temp.val_type {
        TempVal::Reg => {
            let cur = match temp.reg {
                Some(c) => c,
                None => {
                    return Err(RegAllocError::BadTemp);
                },
            };
            if cur >= 16 {
                return Err(RegAllocError::BadTemp);
            }
            if required.contains(cur) && !forbidden.contains(cur) {
                return Ok(cur);
            }
            let dst = match reg_alloc(ctx, state, backend, buf, required, forbidden, preferred) {
                Ok(d) => d,
                Err(e) => {
                    return Err(e);
                },
            };
            if !has_space(buf) {
                return Err(RegAllocError::BufferFull);
            }
            backend.tcg_out_mov(buf, temp.ty, dst, cur);
            state.free_reg(cur);
            state.assign(dst, tidx);
            let mut t = ctx.temps[i];
            t.reg = Some(dst);
            ctx.temps.set(i, t);
            Ok(dst)
        },
        TempVal::Const => {
            let reg = match reg_alloc(ctx, state, backend, buf, required, forbidden, preferred) {
                Ok(d) => d,
                Err(e) => {
                    return Err(e);
                },
            };
            state.assign(reg, tidx);
            if !has_space(buf) {
                return Err(RegAllocError::BufferFull);
            }
            backend.tcg_out_movi(buf, temp.ty, reg, temp.val);
            let mut t = ctx.temps[i];
            t.val_type = TempVal::Reg;
            t.reg = Some(reg);
            ctx.temps.set(i, t);
            Ok(reg)
        },
        TempVal::Mem => {
            let reg = match reg_alloc(ctx, state, backend, buf, required, forbidden, preferred) {
                Ok(d) => d,
                Err(e) => {
                    return Err(e);
                },
            };
            state.assign(reg, tidx);
            if let Some(base_idx) = temp.mem_base {
                if base_idx.0 as usize >= ctx.temps.len() {
                    return Err(RegAllocError::BadTemp);
                }
                let base_reg = match ctx.temps[base_idx.0 as usize].reg {
                    Some(b) => b,
                    None => {
                        return Err(RegAllocError::BadTemp);
                    },
                };
                if base_reg >= 16 {
                    return Err(RegAllocError::BadTemp);
                }
                if !has_space(buf) {
                    return Err(RegAllocError::BufferFull);
                }
                backend.tcg_out_ld(buf, temp.ty, reg, base_reg, temp.mem_offset);
            }
            let mut t = ctx.temps[i];
            t.val_type = TempVal::Reg;
            t.reg = Some(reg);
            t.mem_coherent = true;
            ctx.temps.set(i, t);
            Ok(reg)
        },
        TempVal::Dead => Err(RegAllocError::DeadTemp),
    }
}

/// Free the register of a local temp that dies here and mark it dead
/// (globals and fixed temps stay).
fn temp_dead(ctx: &mut Context, state: &mut RegAllocState, tidx: TempIdx) -> (r: Result<(), RegAllocError>)
    requires
        old(ctx).wf(),
        old(state).wf(),
    ensures
        temps_only(final(ctx), old(ctx)),
        final(state).wf(),
        final(state).allocatable == old(state).allocatable,
        r is Ok <==> tidx.0 < old(ctx).temps_view().len(),
        r is Ok ==> {
            let o = old(ctx).temps_view()[tidx.0 as int];
            let n = final(ctx).temps_view()[tidx.0 as int];
            o.spec_is_global_or_fixed() ==> n == o
        },
{
    if tidx.0 as usize >= ctx.temps.len() {
        return Err(RegAllocError::BadTemp);
    }
    let i = tidx.0 as usize;
    let temp = ctx.temps[i];
    if temp.is_global_or_fixed() {
        return Ok(());
    }
    if let Some(reg) = temp.reg {
        if reg < 16 {
            state.free_reg(reg);
        }
    }
    let mut t = temp;
    t.val_type = TempVal::Dead;
    t.reg = None;
    ctx.temps.set(i, t);
    Ok(())
}

/// Every global held in a register has its memory slot up to date.
pub open spec fn globals_synced(ctx: &Context) -> bool {
    forall|i: int|
        0 <= i < ctx.spec_nb_globals() ==> (#[trigger] ctx.temps_view()[i]).val_type is Reg ==> ctx.temps_view()[i].mem_coherent
}

/// `temps` once the globals among the first `n` temps that are held only in
/// a register are written back.
pub open spec fn synced_temps(temps: Seq<Temp>, n: int) -> Seq<Temp> {
    Seq::new(
        temps.len(),
        |i: int|
            if i < n && temps[i].val_type is Reg && !temps[i].mem_coherent {
                Temp { mem_coherent: true, ..temps[i] }
            } else {
                temps[i]
            },
    )
}

/// Write every global held only in a register back to memory.
fn sync_globals(ctx: &mut Context, backend: &X86_64CodeGen, buf: &mut CodeBuffer) -> (r: Result<(), RegAllocError>)
    requires
        old(ctx).wf(),
        old(buf).wf(),
    ensures
        temps_only(final(ctx), old(ctx)),
        appended(final(buf), old(buf)),
        r is Ok ==> final(ctx).temps_view() == synced_temps(old(ctx).temps_view(), old(ctx).spec_nb_globals() as int),
        r is Ok ==> globals_synced(final(ctx)),
        globals_synced(old(ctx)) ==> r is Ok && *final(ctx) == *old(ctx) && *final(buf) == *old(buf),
{
    let nb_globals = ctx.nb_globals as usize;
    let mut i: usize = 0;
    while i < nb_globals
        invariant
            nb_globals == ctx.spec_nb_globals() <= ctx.temps_view().len(),
            i <= nb_globals,
            temps_only(ctx, old(ctx)),
            appended(buf, old(buf)),
            ctx.temps_view() == synced_temps(old(ctx).temps_view(), i as int),
            globals_synced(old(ctx)) ==> *ctx == *old(ctx) && *buf == *old(buf),
        decreases nb_globals - i,
    {
        let temp = ctx.temps[i];
        assert(temp == old(ctx).temps_view()[i as int]);
        if temp.val_type == TempVal::Reg && !temp.mem_coherent {
            let r = temp_sync(ctx, backend, buf, TempIdx(i as u32));
            if let Err(e) = r {
                return Err(e);
            }
            let mut t = ctx.temps[i];
            t.mem_coherent = true;
            ctx.temps.set(i, t);
        }
        assert(ctx.temps_view() =~= synced_temps(old(ctx).temps_view(), i + 1));
        i = i + 1;
    }
    assert forall|j: int| 0 <= j < ctx.spec_nb_globals() && (#[trigger] ctx.temps_view()[j]).val_type is Reg implies ctx.temps_view()[j].mem_coherent by {
        assert(ctx.temps_view()[j] == synced_temps(old(ctx).temps_view(), i as int)[j]);
    }
    Ok(())
}

/// A vector of `n` zeros.
fn zeros(n: usize) -> (v: Vec<u8>)
    ensures
        v@.len() == n,
        regs_valid(v@),
{
    let mut v: Vec<u8> = Vec::new();
    let mut k: usize = 0;
    while k < n
        invariant
            k <= n,
            v@.len() == k,
            regs_valid(v@),
        decreases n - k,
    {
        v.push(0);
        k = k + 1;
    }
    v
}

/// The constant arguments of `op`, as raw values.
fn const_args(op: &Op, start: usize, n: usize) -> (c: Vec<u32>)
    requires
        start + n <= 10,
    ensures
        c@.len() == n,
        forall|k: int| 0 <= k < n ==> #[trigger] c@[k] == op.args@[start + k].0,
{
    let mut c: Vec<u32> = Vec::new();
    let mut k: usize = 0;
    while k < n
        invariant
            k <= n,
            start + n <= 10,
            c@.len() == k,
            forall|j: int| 0 <= j < k ==> #[trigger] c@[j] == op.args@[start + j].0,
        decreases n - k,
    {
        c.push(op.args[start + k].0);
        k = k + 1;
    }
    c
}

/// Emit the host code of `op` once its registers are chosen.
fn emit_op(
    ctx: &Context,
    backend: &X86_64CodeGen,
    buf: &mut CodeBuffer,
    op: &Op,
    oregs: &[u8],
    iregs: &[u8],
    cargs: &[u32],
) -> (r: Result<Option<(usize, usize)>, RegAllocError>)
    requires
        old(buf).wf(),
        oregs@.len() == op.opc.spec_def().nb_oargs,
        iregs@.len() == op.opc.spec_def().nb_iargs,
        cargs@.len() == op.opc.spec_def().nb_cargs,
        regs_valid(oregs@),
        regs_valid(iregs@),
    ensures
        appended(final(buf), old(buf)),
        !old(buf).has_room(MAX_OP_BYTES as int) ==> r == Err::<Option<(usize, usize)>, RegAllocError>(RegAllocError::BufferFull)
            && *final(buf) == *old(buf),
        old(buf).has_room(MAX_OP_BYTES as int) ==> match backend.out_op(
            ctx.labels_view(),
            ctx.tb_idx,
            *op,
            oregs@,
            iregs@,
            cargs@,
            old(buf).offset as int,
        ) {
            None => r == Err::<Option<(usize, usize)>, RegAllocError>(
                RegAllocError::Codegen(crate::backend::codegen::out_op_error(ctx.labels_view(), *op, cargs@)),
            ) && *final(buf) == *old(buf),
            Some(b) => {
                &&& final(buf).emitted(old(buf), b)
                &&& r matches Ok(g)
                &&& (r->Ok_0 is Some <==> op.opc is GotoTb)
                &&& (r->Ok_0 matches Some(p) ==> p.0 == old(buf).offset + crate::backend::codegen::goto_tb_pad(
                    old(buf).offset as int,
                ) && p.1 == p.0 + 5)
            },
        },
{
    if !has_space(buf) {
        return Err(RegAllocError::BufferFull);
    }
    proof {
        lemma_out_op_len(*backend, ctx.labels_view(), ctx.tb_idx, *op, oregs@, iregs@, cargs@, buf.offset as int);
    }
    match backend.tcg_out_op(buf, ctx, op, oregs, iregs, cargs) {
        Ok(g) => Ok(g),
        Err(e) => Err(RegAllocError::Codegen(e)),
    }
}

/// Input `i` of `op`, when the op marks it for write-back, names a temp
/// whose memory slot is up to date in `ctx`.
pub open spec fn synced_input(ctx: &Context, op: &Op, i: int) -> bool {
    let d = op.opc.spec_def();
    let t = op.args@[d.nb_oargs + i];
    op.life.spec_is_sync((d.nb_oargs + i) as u32) ==> t.0 < ctx.temps_view().len() && ctx.temps_view()[t.0 as int].mem_coherent
}

/// Constraint-driven register allocation and code for one op: load the
/// inputs into registers that satisfy their constraints, free the inputs
/// that die, give each output a register (its aliased input's, a fresh one
/// apart from the inputs, or any allowed one), emit the code, free the
/// outputs that die and write back the globals that must be synced.
#[verifier::spinoff_prover]
#[verifier::rlimit(50)]
fn regalloc_op(
    ctx: &mut Context,
    state: &mut RegAllocState,
    backend: &X86_64CodeGen,
    buf: &mut CodeBuffer,
    op: &Op,
    ct: &OpConstraint,
) -> (r: Result<(), RegAllocError>)
    requires
        old(ctx).wf(),
        old(state).wf(),
        old(buf).wf(),
    ensures
        temps_only(final(ctx), old(ctx)),
        final(state).wf(),
        final(state).allocatable == old(state).allocatable,
        appended(final(buf), old(buf)),
        r is Ok ==> forall|i: int| 0 <= i < op.opc.spec_def().nb_iargs ==> #[trigger] synced_input(final(ctx), op, i),
{
    let def = op.opc.def();
    proof {
        lemma_opcode_arg_counts(op.opc);
    }
    let nb_oargs = def.nb_oargs as usize;
    let nb_iargs = def.nb_iargs as usize;
    let nb_cargs = def.nb_cargs as usize;
    let life = op.life;
    let mut i_regs = zeros(nb_iargs);
    let mut i_reusable: Vec<bool> = Vec::new();
    let mut i_allocated = RegSet::new();
    // 1. Inputs.
    let mut i: usize = 0;
    while i < nb_iargs
        invariant
            nb_oargs + nb_iargs + nb_cargs <= 10,
            nb_oargs == op.opc.spec_def().nb_oargs,
            nb_iargs == op.opc.spec_def().nb_iargs,
            i <= nb_iargs,
            i_regs@.len() == nb_iargs,
            regs_valid(i_regs@),
            i_reusable@.len() == i,
            temps_only(ctx, old(ctx)),
            state.wf(),
            state.allocatable == old(state).allocatable,
            appended(buf, old(buf)),
        decreases nb_iargs - i,
    {
        let arg_ct = ct.args[nb_oargs + i];
        let tidx = op.args[nb_oargs + i];
        if tidx.0 as usize >= ctx.temps.len() {
            return Err(RegAllocError::BadTemp);
        }
        let is_dead = life.is_dead((nb_oargs + i) as u32);
        let temp = ctx.temps[tidx.0 as usize];
        let is_readonly = temp.is_global_or_fixed() || temp.is_const();
        let reusable = arg_ct.ialias && is_dead && !is_readonly;
        let preferred = if reusable {
            if arg_ct.alias_index >= 2 {
                return Err(RegAllocError::BadConstraint);
            }
            op.output_pref[arg_ct.alias_index as usize]
        } else {
            RegSet::new()
        };
        let reg = match temp_load_to(ctx, state, backend, buf, tidx, arg_ct.regs, i_allocated, preferred) {
            Ok(r) => r,
            Err(e) => {
                return Err(e);
            },
        };
        i_regs.set(i, reg);
        i_allocated = i_allocated.set(reg);
        i_reusable.push(reusable);
        i = i + 1;
    }
    // A later input's allocation may have evicted an earlier one: read the
    // registers again.
    i_allocated = RegSet::new();
    let mut i: usize = 0;
    while i < nb_iargs
        invariant
            nb_oargs + nb_iargs + nb_cargs <= 10,
            nb_iargs == op.opc.spec_def().nb_iargs,
            i <= nb_iargs,
            i_regs@.len() == nb_iargs,
            regs_valid(i_regs@),
            temps_only(ctx, old(ctx)),
            appended(buf, old(buf)),
            state.wf(),
            state.allocatable == old(state).allocatable,
        decreases nb_iargs - i,
    {
        let tidx = op.args[nb_oargs + i];
        if tidx.0 as usize >= ctx.temps.len() {
            return Err(RegAllocError::BadTemp);
        }
        let temp = ctx.temps[tidx.0 as usize];
        if temp.val_type == TempVal::Reg {
            let reg = match temp.reg {
                Some(r) => r,
                None => {
                    return Err(RegAllocError::BadTemp);
                },
            };
            if reg >= 16 {
                return Err(RegAllocError::BadTemp);
            }
            i_regs.set(i, reg);
            i_allocated = i_allocated.set(reg);
        }
        i = i + 1;
    }
    // 2. Inputs that die here.
    let mut i: usize = 0;
    while i < nb_iargs
        invariant
            nb_oargs + nb_iargs + nb_cargs <= 10,
            i <= nb_iargs,
            temps_only(ctx, old(ctx)),
            appended(buf, old(buf)),
            state.wf(),
            state.allocatable == old(state).allocatable,
        decreases nb_iargs - i,
    {
        if life.is_dead((nb_oargs + i) as u32) {
            let r = temp_dead(ctx, state, op.args[nb_oargs + i]);
            if let Err(e) = r {
                return Err(e);
            }
        }
        i = i + 1;
    }
    // 3. Outputs.
    let mut o_regs: Vec<u8> = Vec::new();
    let mut o_allocated = RegSet::new();
    let mut k: usize = 0;
    while k < nb_oargs
        invariant
            nb_oargs + nb_iargs + nb_cargs <= 10,
            nb_oargs == op.opc.spec_def().nb_oargs,
            nb_iargs == op.opc.spec_def().nb_iargs,
            k <= nb_oargs,
            o_regs@.len() == k,
            regs_valid(o_regs@),
            i_regs@.len() == nb_iargs,
            regs_valid(i_regs@),
            i_reusable@.len() == nb_iargs,
            temps_only(ctx, old(ctx)),
            state.wf(),
            state.allocatable == old(state).allocatable,
            appended(buf, old(buf)),
        decreases nb_oargs - k,
    {
        let arg_ct = ct.args[k];
        let dst = op.args[k];
        if dst.0 as usize >= ctx.temps.len() {
            return Err(RegAllocError::BadTemp);
        }
        let reg = if arg_ct.oalias {
            let ai = arg_ct.alias_index as usize;
            if ai >= nb_iargs {
                return Err(RegAllocError::BadConstraint);
            }
            if i_reusable[ai] {
                i_regs[ai]
            } else {
                // The input stays live: copy it away and take its register.
                let old_reg = i_regs[ai];
                let src = op.args[nb_oargs + ai];
                if src.0 as usize >= ctx.temps.len() {
                    return Err(RegAllocError::BadTemp);
                }
                let ty = ctx.temps[src.0 as usize].ty;
                let alloc = state.allocatable;
                let copy_reg = match reg_alloc(ctx, state, backend, buf, alloc, i_allocated.union(o_allocated), RegSet::new()) {
                    Ok(r) => r,
                    Err(e) => {
                        return Err(e);
                    },
                };
                if !has_space(buf) {
                    return Err(RegAllocError::BufferFull);
                }
                backend.tcg_out_mov(buf, ty, copy_reg, old_reg);
                state.assign(copy_reg, src);
                let mut t = ctx.temps[src.0 as usize];
                t.reg = Some(copy_reg);
                ctx.temps.set(src.0 as usize, t);
                old_reg
            }
        } else if arg_ct.newreg {
            match reg_alloc(ctx, state, backend, buf, arg_ct.regs, i_allocated.union(o_allocated), RegSet::new()) {
                Ok(r) => r,
                Err(e) => {
                    return Err(e);
                },
            }
        } else {
            match reg_alloc(ctx, state, backend, buf, arg_ct.regs, o_allocated, RegSet::new()) {
                Ok(r) => r,
                Err(e) => {
                    return Err(e);
                },
            }
        };
        state.assign(reg, dst);
        let mut t = ctx.temps[dst.0 as usize];
        t.val_type = TempVal::Reg;
        t.reg = Some(reg);
        t.mem_coherent = false;
        ctx.temps.set(dst.0 as usize, t);
        o_regs.push(reg);
        o_allocated = o_allocated.set(reg);
        k = k + 1;
    }
    // 4. The code.
    let cargs = const_args(op, nb_oargs + nb_iargs, nb_cargs);
    let e = emit_op(ctx, backend, buf, op, o_regs.as_slice(), i_regs.as_slice(), cargs.as_slice());
    if let Err(err) = e {
        return Err(err);
    }
    // 5. Outputs that die here.
    let mut k: usize = 0;
    while k < nb_oargs
        invariant
            nb_oargs <= 10,
            k <= nb_oargs,
            temps_only(ctx, old(ctx)),
            appended(buf, old(buf)),
            state.wf(),
            state.allocatable == old(state).allocatable,
        decreases nb_oargs - k,
    {
        if life.is_dead(k as u32) {
            let r = temp_dead(ctx, state, op.args[k]);
            if let Err(e) = r {
                return Err(e);
            }
        }
        k = k + 1;
    }
    // 6. Globals to write back before they die.
    let mut i: usize = 0;
    while i < nb_iargs
        invariant
            nb_oargs + nb_iargs <= 10,
            nb_oargs == op.opc.spec_def().nb_oargs,
            nb_iargs == op.opc.spec_def().nb_iargs,
            life == op.life,
            i <= nb_iargs,
            temps_only(ctx, old(ctx)),
            state.wf(),
            state.allocatable == old(state).allocatable,
            appended(buf, old(buf)),
            forall|j: int| 0 <= j < i ==> #[trigger] synced_input(ctx, op, j),
        decreases nb_iargs - i,
    {
        let ghost before = *ctx;
        if life.is_sync((nb_oargs + i) as u32) {
            let tidx = op.args[nb_oargs + i];
            if tidx.0 as usize >= ctx.temps.len() {
                return Err(RegAllocError::BadTemp);
            }
            let r = temp_sync(ctx, backend, buf, tidx);
            if let Err(e) = r {
                return Err(e);
            }
            let mut t = ctx.temps[tidx.0 as usize];
            t.mem_coherent = true;
            ctx.temps.set(tidx.0 as usize, t);
        }
        assert forall|j: int| 0 <= j <= i implies #[trigger] synced_input(ctx, op, j) by {
            if j < i {
                assert(synced_input(&before, op, j));
            }
        }
        i = i + 1;
    }
    Ok(())
}

/// `new` is `old` with its temps and labels changed (the same number of
/// each), its ops and settings kept.
pub open spec fn ops_kept(new: &Context, old: &Context) -> bool {
    &&& new.wf()
    &&& new.ops_view() == old.ops_view()
    &&& new.temps_view().len() == old.temps_view().len()
    &&& new.labels_view().len() == old.labels_view().len()
    &&& new.spec_nb_globals() == old.spec_nb_globals()
}

/// No two recorded jump displacements overlap.
pub open spec fn uses_apart(uses: Seq<crate::label::LabelUse>) -> bool {
    forall|j: int, k: int|
        0 <= j < uses.len() && 0 <= k < uses.len() && j != k ==> (#[trigger] uses[j]).offset + 4 <= (#[trigger] uses[k]).offset
            || uses[k].offset + 4 <= uses[j].offset
}

/// The 32-bit displacement field at `u` holds the distance from its end to
/// `target`, modulo 2^32.
pub open spec fn patched(buf: &CodeBuffer, u: crate::label::LabelUse, target: usize) -> bool {
    &&& u.offset + 4 <= buf.data@.len()
    &&& buf.data@.subrange(u.offset as int, u.offset + 4) == crate::backend::code_buffer::le32(
        (vstd::wrapping::u64_specs::wrapping_sub(target as u64, (u.offset + 4) as u64)) as u32,
    )
}

/// Every recorded jump displacement lies inside a buffer of `len` bytes.
pub open spec fn uses_fit(uses: Seq<crate::label::LabelUse>, len: int) -> bool {
    forall|k: int| 0 <= k < uses.len() ==> (#[trigger] uses[k]).offset + 4 <= len
}

/// Resolve label `label_id` at the current offset: sync the globals, give
/// the label its value, and patch every jump recorded to it.
fn set_label(ctx: &mut Context, backend: &X86_64CodeGen, buf: &mut CodeBuffer, label_id: u32) -> (r: Result<
    (),
    RegAllocError,
>)
    requires
        old(ctx).wf(),
        old(buf).wf(),
    ensures
        ops_kept(final(ctx), old(ctx)),
        advanced(final(buf), old(buf)),
        r is Ok ==> label_id < final(ctx).labels_view().len() && final(ctx).labels_view()[label_id as int].has_value
            && final(ctx).labels_view()[label_id as int].value == final(buf).offset
            && final(ctx).labels_view()[label_id as int].uses@.len() == 0,
        label_id >= old(ctx).labels_view().len() ==> r == Err::<(), RegAllocError>(RegAllocError::BadLabel)
            && *final(ctx) == *old(ctx) && *final(buf) == *old(buf),
        r is Ok ==> final(ctx).temps_view() == synced_temps(old(ctx).temps_view(), old(ctx).spec_nb_globals() as int)
            && globals_synced(final(ctx)),
        r is Ok ==> forall|i: int|
            0 <= i < final(ctx).labels_view().len() && i != label_id ==> #[trigger] final(ctx).labels_view()[i]
                == old(ctx).labels_view()[i],
        label_id < old(ctx).labels_view().len() && globals_synced(old(ctx)) && uses_fit(
            old(ctx).labels_view()[label_id as int].uses@,
            old(buf).data@.len() as int,
        ) ==> r is Ok,
        forall|n: int|
            #![trigger untouched_below(final(buf), old(buf), n)]
            n <= old(buf).offset && uses_from(old(ctx).labels_view(), n) ==> untouched_below(final(buf), old(buf), n),
        forall|n: int|
            #![trigger uses_from(final(ctx).labels_view(), n)]
            n <= old(buf).offset && uses_from(old(ctx).labels_view(), n) ==> uses_from(final(ctx).labels_view(), n),
        r is Ok && uses_apart(old(ctx).labels_view()[label_id as int].uses@) ==> forall|k: int|
            0 <= k < old(ctx).labels_view()[label_id as int].uses@.len() ==> patched(
                final(buf),
                #[trigger] old(ctx).labels_view()[label_id as int].uses@[k],
                final(buf).offset,
            ),
{
    if label_id as usize >= ctx.labels.len() {
        return Err(RegAllocError::BadLabel);
    }
    let r = sync_globals(ctx, backend, buf);
    if let Err(e) = r {
        return Err(e);
    }
    let ghost ctx1 = *ctx;
    let offset = buf.offset();
    let n = ctx.labels[label_id as usize].uses.len();
    let mut k: usize = 0;
    while k < n
        invariant
            label_id < ctx.labels_view().len(),
            n == ctx.labels_view()[label_id as int].uses@.len(),
            k <= n,
            offset == buf.offset,
            ops_kept(ctx, old(ctx)),
            advanced(buf, old(buf)),
            *ctx == ctx1,
            globals_synced(old(ctx)) ==> ctx1 == *old(ctx),
            ctx1.labels_view() == old(ctx).labels_view(),
            uses_apart(old(ctx).labels_view()[label_id as int].uses@) ==> forall|j: int|
                0 <= j < k ==> patched(buf, #[trigger] old(ctx).labels_view()[label_id as int].uses@[j], offset),
            forall|m: int|
                #![trigger untouched_below(buf, old(buf), m)]
                m <= old(buf).offset && uses_from(old(ctx).labels_view(), m) ==> untouched_below(buf, old(buf), m),
        decreases n - k,
    {
        let u = ctx.labels[label_id as usize].uses[k];
        if buf.capacity() < 4 || u.offset > buf.capacity() - 4 {
            return Err(RegAllocError::BadLabel);
        }
        let ghost before = *buf;
        match u.kind {
            RelocKind::Rel32 => {
                let disp = (offset as u64).wrapping_sub((u.offset + 4) as u64);
                buf.patch_u32(u.offset, disp as u32);
            },
        }
        proof {
            let us = old(ctx).labels_view()[label_id as int].uses@;
            if uses_apart(us) {
                assert forall|j: int| 0 <= j <= k implies patched(buf, #[trigger] us[j], offset) by {
                    if j < k {
                        assert(patched(&before, us[j], offset));
                        assert(us[j].offset + 4 <= u.offset || u.offset + 4 <= us[j].offset);
                        assert(buf.data@.subrange(us[j].offset as int, us[j].offset + 4) =~= before.data@.subrange(
                            us[j].offset as int,
                            us[j].offset + 4,
                        ));
                    } else {
                        assert(buf.data@.subrange(u.offset as int, u.offset + 4) =~= crate::backend::code_buffer::le32(
                            (vstd::wrapping::u64_specs::wrapping_sub(offset as u64, (u.offset + 4) as u64)) as u32,
                        ));
                    }
                }
            }
            assert forall|m: int|
                #![trigger untouched_below(buf, old(buf), m)]
                m <= old(buf).offset && uses_from(old(ctx).labels_view(), m) implies untouched_below(buf, old(buf), m) by {
                assert(untouched_below(&before, old(buf), m));
                assert(u == old(ctx).labels_view()[label_id as int].uses@[k as int]);
                assert(m <= u.offset);
                assert forall|i: int| 0 <= i < m implies #[trigger] buf.data@[i] == old(buf).data@[i] by {
                    assert(buf.data@[i] == before.data@[i]);
                }
            }
        }
        k = k + 1;
    }
    let l = ctx.label_mut(label_id);
    l.set_value(offset);
    l.uses = Vec::new();
    proof {
        assert forall|m: int|
            #![trigger uses_from(ctx.labels_view(), m)]
            m <= old(buf).offset && uses_from(old(ctx).labels_view(), m) implies uses_from(ctx.labels_view(), m) by {
            assert forall|li: int, k: int|
                0 <= li < ctx.labels_view().len() && 0 <= k < ctx.labels_view()[li].uses@.len() implies m <= (
                #[trigger] ctx.labels_view()[li].uses@[k]).offset by {
                assert(li != label_id);
                assert(ctx.labels_view()[li] == old(ctx).labels_view()[li]);
            }
        }
    }
    Ok(())
}

/// Every fixed global that names a register names a host register.
pub open spec fn fixed_regs_ok(ctx: &Context) -> bool {
    forall|i: int|
        0 <= i < ctx.spec_nb_globals() ==> ((#[trigger] ctx.temps_view()[i]).kind is Fixed && ctx.temps_view()[i].reg is Some
            ==> ctx.temps_view()[i].reg->0 < 16)
}

/// Every op is a `nop` or an instruction-start marker: no host code is owed.
pub open spec fn only_markers(ops: Seq<Op>) -> bool {
    forall|k: int| 0 <= k < ops.len() ==> (#[trigger] ops[k]).opc is Nop || ops[k].opc is InsnStart
}

/// Ops after which every global is back in memory: branches, exits, labels,
/// and the other ops that end a basic block.
pub open spec fn ends_synced(opc: Opcode) -> bool {
    ||| matches!(opc, Opcode::Br | Opcode::BrCond | Opcode::ExitTb | Opcode::GotoTb | Opcode::GotoPtr | Opcode::SetLabel)
    ||| (!matches!(opc, Opcode::Nop | Opcode::InsnStart | Opcode::Mov | Opcode::Mb) && opc.spec_def().flags.has(
        crate::opcode::FLAG_BB_END,
    ))
}

/// The number of `goto_tb` ops among `ops`.
pub open spec fn goto_count(ops: Seq<Op>) -> nat
    decreases ops.len(),
{
    if ops.len() == 0 {
        0
    } else {
        goto_count(ops.drop_last()) + if ops.last().opc is GotoTb {
            1nat
        } else {
            0nat
        }
    }
}

/// Allocate registers and emit host code for every op of `ctx`, in order.
/// Returns the jump and reset offsets of each `goto_tb`, in order.
pub fn regalloc_and_codegen(ctx: &mut Context, backend: &X86_64CodeGen, buf: &mut CodeBuffer) -> (r: Result<
    Vec<(usize, usize)>,
    RegAllocError,
>)
    requires
        old(ctx).wf(),
        old(buf).wf(),
    ensures
        ops_kept(final(ctx), old(ctx)),
        advanced(final(buf), old(buf)),
        r matches Ok(g) ==> g@.len() == goto_count(old(ctx).ops_view()) && forall|k: int|
            0 <= k < g@.len() ==> (#[trigger] g@[k]).1 == g@[k].0 + 5,
        !fixed_regs_ok(old(ctx)) ==> r == Err::<Vec<(usize, usize)>, RegAllocError>(RegAllocError::BadTemp),
        fixed_regs_ok(old(ctx)) && only_markers(old(ctx).ops_view()) ==> (r matches Ok(g) && g@.len() == 0)
            && *final(ctx) == *old(ctx) && *final(buf) == *old(buf),
        r is Ok && old(ctx).ops_view().len() > 0 && ends_synced(old(ctx).ops_view().last().opc) ==> globals_synced(final(ctx)),
        uses_from(old(ctx).labels_view(), old(buf).offset as int) ==> untouched_below(final(buf), old(buf), old(buf).offset as int),
{
    let allocatable = crate::backend::regs::allocatable_regs();
    proof {
        assert forall|r: u64| #[trigger] allocatable.has(r) implies r < 16 by {
            crate::backend::regs::lemma_allocatable_regs(r);
        }
    }
    let mut state = RegAllocState::new(allocatable);
    let mut gotos: Vec<(usize, usize)> = Vec::new();
    // Fixed temps always live in their register.
    let nb_globals = ctx.nb_globals as usize;
    let mut i: usize = 0;
    while i < nb_globals
        invariant
            nb_globals == ctx.spec_nb_globals() <= ctx.temps_view().len(),
            *ctx == *old(ctx),
            *buf == *old(buf),
            ctx.wf(),
            buf.wf(),
            state.wf(),
            state.allocatable == allocatable,
            i <= nb_globals,
            gotos@.len() == 0,
            forall|j: int|
                0 <= j < i ==> ((#[trigger] ctx.temps_view()[j]).kind is Fixed && ctx.temps_view()[j].reg is Some
                    ==> ctx.temps_view()[j].reg->0 < 16),
        decreases nb_globals - i,
    {
        let temp = ctx.temps[i];
        if temp.kind == TempKind::Fixed {
            if let Some(reg) = temp.reg {
                if reg >= 16 {
                    return Err(RegAllocError::BadTemp);
                }
                state.assign(reg, TempIdx(i as u32));
            }
        }
        i = i + 1;
    }
    let num_ops = ctx.ops.len();
    let mut oi: usize = 0;
    assert(old(ctx).ops_view().subrange(0, 0) =~= Seq::<Op>::empty());
    assert(fixed_regs_ok(old(ctx)));
    while oi < num_ops
        invariant
            num_ops == old(ctx).ops_view().len(),
            oi <= num_ops,
            ops_kept(ctx, old(ctx)),
            advanced(buf, old(buf)),
            state.wf(),
            state.allocatable == allocatable,
            gotos@.len() == goto_count(old(ctx).ops_view().subrange(0, oi as int)),
            fixed_regs_ok(old(ctx)),
            only_markers(old(ctx).ops_view()) ==> *ctx == *old(ctx) && *buf == *old(buf) && gotos@.len() == 0,
            oi > 0 && ends_synced(old(ctx).ops_view()[oi - 1].opc) ==> globals_synced(ctx),
            uses_from(old(ctx).labels_view(), old(buf).offset as int) ==> uses_from(ctx.labels_view(), old(buf).offset as int)
                && untouched_below(buf, old(buf), old(buf).offset as int),
            forall|k: int| 0 <= k < gotos@.len() ==> (#[trigger] gotos@[k]).1 == gotos@[k].0 + 5,
        decreases num_ops - oi,
    {
        let ghost g0 = gotos@;
        let op = ctx.ops[oi];
        assert(old(ctx).ops_view().subrange(0, oi + 1).drop_last() =~= old(ctx).ops_view().subrange(0, oi as int));
        let def = op.opc.def();
        proof {
            lemma_opcode_arg_counts(op.opc);
        }
        let ghost ctx_before = *ctx;
        let ghost buf_before = *buf;
        let res: Result<(), RegAllocError> = match op.opc {
            Opcode::Nop | Opcode::InsnStart => Ok(()),
            Opcode::Mov => regalloc_mov(ctx, &mut state, backend, buf, &op),
            Opcode::SetLabel => set_label(ctx, backend, buf, op.args[0].0),
            Opcode::Br => branch(ctx, backend, buf, op.args[0].0),
            Opcode::ExitTb | Opcode::GotoTb => {
                match sync_globals(ctx, backend, buf) {
                    Err(e) => Err(e),
                    Ok(()) => {
                        let nb_cargs = def.nb_cargs as usize;
                        let cstart = (def.nb_oargs + def.nb_iargs) as usize;
                        let cargs = const_args(&op, cstart, nb_cargs);
                        let e: Vec<u8> = Vec::new();
                        if def.nb_oargs != 0 || def.nb_iargs != 0 {
                            Err(RegAllocError::BadConstraint)
                        } else {
                            match emit_op(ctx, backend, buf, &op, e.as_slice(), e.as_slice(), cargs.as_slice()) {
                                Ok(Some(g)) => {
                                    gotos.push(g);
                                    Ok(())
                                },
                                Ok(None) => Ok(()),
                                Err(e) => Err(e),
                            }
                        }
                    },
                }
            },
            Opcode::GotoPtr => regalloc_goto_ptr(ctx, &mut state, backend, buf, &op),
            Opcode::Mb => {
                if !has_space(buf) {
                    Err(RegAllocError::BufferFull)
                } else {
                    crate::backend::emitter::emit_mfence(buf);
                    Ok(())
                }
            },
            Opcode::BrCond => regalloc_brcond(ctx, &mut state, backend, buf, &op),
            _ => {
                let ct = op_constraint(op.opc);
                match regalloc_op(ctx, &mut state, backend, buf, &op, &ct) {
                    Err(e) => Err(e),
                    Ok(()) => {
                        if def.flags.contains(OpFlags::bb_end()) {
                            sync_globals(ctx, backend, buf)
                        } else {
                            Ok(())
                        }
                    },
                }
            },
        };
        proof {
            if uses_from(old(ctx).labels_view(), old(buf).offset as int) {
                assert(untouched_below(buf, &buf_before, old(buf).offset as int));
                assert(uses_from(ctx.labels_view(), old(buf).offset as int));
            }
        }
        if let Err(e) = res {
            return Err(e);
        }
        assert(gotos@.len() == goto_count(old(ctx).ops_view().subrange(0, oi + 1)));
        assert(ends_synced(old(ctx).ops_view()[oi as int].opc) ==> globals_synced(ctx));
        oi = oi + 1;
    }
    assert(old(ctx).ops_view().subrange(0, num_ops as int) =~= old(ctx).ops_view());
    Ok(gotos)
}

/// A `mov`: load the source, free it when it dies, give the output a
/// register and copy when the two differ.
fn regalloc_mov(
    ctx: &mut Context,
    state: &mut RegAllocState,
    backend: &X86_64CodeGen,
    buf: &mut CodeBuffer,
    op: &Op,
) -> (r: Result<(), RegAllocError>)
    requires
        old(ctx).wf(),
        old(state).wf(),
        old(buf).wf(),
    ensures
        ops_kept(final(ctx), old(ctx)),
        final(state).wf(),
        final(state).allocatable == old(state).allocatable,
        appended(final(buf), old(buf)),
        op.args@[1].0 >= old(ctx).temps_view().len() ==> r == Err::<(), RegAllocError>(RegAllocError::BadTemp)
            && *final(ctx) == *old(ctx) && *final(state) == *old(state) && *final(buf) == *old(buf),
        final(ctx).labels_view() == old(ctx).labels_view(),
        r is Ok && !op.life.spec_is_dead(0) ==> {
            let t = final(ctx).temps_view()[op.args@[0].0 as int];
            &&& op.args@[0].0 < final(ctx).temps_view().len()
            &&& t.val_type is Reg
            &&& t.reg matches Some(d) && d < 16 && final(state).reg_to_temp@[d as int] == Some(op.args@[0])
            &&& !t.mem_coherent
        },
{
    let dst = op.args[0];
    let src = op.args[1];
    let life = op.life;
    let alloc = state.allocatable;
    let src_reg = match temp_load_to(ctx, state, backend, buf, src, alloc, RegSet::new(), RegSet::new()) {
        Ok(r) => r,
        Err(e) => {
            return Err(e);
        },
    };
    if life.is_dead(1) {
        let r = temp_dead(ctx, state, src);
        if let Err(e) = r {
            return Err(e);
        }
    }
    let dst_reg = match reg_alloc(ctx, state, backend, buf, alloc, RegSet::new(), RegSet::new()) {
        Ok(r) => r,
        Err(e) => {
            return Err(e);
        },
    };
    if dst.0 as usize >= ctx.temps.len() {
        return Err(RegAllocError::BadTemp);
    }
    state.assign(dst_reg, dst);
    let mut t = ctx.temps[dst.0 as usize];
    t.val_type = TempVal::Reg;
    t.reg = Some(dst_reg);
    t.mem_coherent = false;
    ctx.temps.set(dst.0 as usize, t);
    if dst_reg != src_reg {
        if !has_space(buf) {
            return Err(RegAllocError::BufferFull);
        }
        backend.tcg_out_mov(buf, op.op_type, dst_reg, src_reg);
    }
    if life.is_dead(0) {
        let r = temp_dead(ctx, state, dst);
        if let Err(e) = r {
            return Err(e);
        }
    }
    Ok(())
}

/// An unconditional branch: sync the globals, then jump to the label's
/// offset, or emit a jump with a zero displacement and record it for
/// patching.
fn branch(ctx: &mut Context, backend: &X86_64CodeGen, buf: &mut CodeBuffer, label_id: u32) -> (r: Result<
    (),
    RegAllocError,
>)
    requires
        old(ctx).wf(),
        old(buf).wf(),
    ensures
        ops_kept(final(ctx), old(ctx)),
        appended(final(buf), old(buf)),
        label_id >= old(ctx).labels_view().len() ==> r == Err::<(), RegAllocError>(RegAllocError::BadLabel)
            && *final(ctx) == *old(ctx) && *final(buf) == *old(buf),
        r is Ok ==> final(ctx).temps_view() == synced_temps(old(ctx).temps_view(), old(ctx).spec_nb_globals() as int)
            && globals_synced(final(ctx)),
        r is Ok ==> forall|i: int|
            0 <= i < final(ctx).labels_view().len() && i != label_id ==> #[trigger] final(ctx).labels_view()[i]
                == old(ctx).labels_view()[i],
        r is Ok && old(ctx).labels_view()[label_id as int].has_value ==> final(ctx).labels_view()[label_id as int]
            == old(ctx).labels_view()[label_id as int],
        r is Ok && !old(ctx).labels_view()[label_id as int].has_value ==> {
            let n = final(ctx).labels_view()[label_id as int];
            let o = old(ctx).labels_view()[label_id as int];
            &&& n.uses@ == o.uses@.push(crate::label::LabelUse { offset: (final(buf).offset - 4) as usize, kind: RelocKind::Rel32 })
            &&& n.has_value == o.has_value
            &&& n.value == o.value
            &&& n.id == o.id
        },
        label_id < old(ctx).labels_view().len() && globals_synced(old(ctx)) && old(buf).has_room(MAX_OP_BYTES as int) && (
        old(ctx).labels_view()[label_id as int].has_value ==> crate::backend::enc::fits_i32(
            old(ctx).labels_view()[label_id as int].value - (old(buf).offset + 5),
        )) ==> r is Ok,
        forall|n: int|
            #![trigger uses_from(final(ctx).labels_view(), n)]
            n <= old(buf).offset && uses_from(old(ctx).labels_view(), n) ==> uses_from(final(ctx).labels_view(), n),
{
    if label_id as usize >= ctx.labels.len() {
        return Err(RegAllocError::BadLabel);
    }
    let r = sync_globals(ctx, backend, buf);
    if let Err(e) = r {
        return Err(e);
    }
    if !has_space(buf) {
        return Err(RegAllocError::BufferFull);
    }
    let label = ctx.label(label_id);
    if label.has_value {
        if !crate::backend::codegen::disp_fits(label.value, buf.offset() + 5) {
            return Err(RegAllocError::BadLabel);
        }
        crate::backend::emitter::emit_jmp(buf, label.value);
    } else {
        buf.emit_u8(0xE9);
        let patch_off = buf.offset();
        buf.emit_u32(0);
        let ghost before = *ctx;
        let l = ctx.label_mut(label_id);
        l.add_use(patch_off, RelocKind::Rel32);
        proof {
            assert forall|m: int|
                #![trigger uses_from(ctx.labels_view(), m)]
                m <= old(buf).offset && uses_from(old(ctx).labels_view(), m) implies uses_from(ctx.labels_view(), m) by {
                assert forall|li: int, k: int|
                    0 <= li < ctx.labels_view().len() && 0 <= k < ctx.labels_view()[li].uses@.len() implies m <= (
                    #[trigger] ctx.labels_view()[li].uses@[k]).offset by {
                    assert(before.labels_view() == old(ctx).labels_view());
                    if li == label_id && k == before.labels_view()[li].uses@.len() {
                    } else {
                        assert(ctx.labels_view()[li].uses@[k] == old(ctx).labels_view()[li].uses@[k]);
                    }
                }
            }
        }
    }
    Ok(())
}

/// `goto_ptr`: load the target, free it when it dies, sync the globals and
/// jump.
fn regalloc_goto_ptr(
    ctx: &mut Context,
    state: &mut RegAllocState,
    backend: &X86_64CodeGen,
    buf: &mut CodeBuffer,
    op: &Op,
) -> (r: Result<(), RegAllocError>)
    requires
        old(ctx).wf(),
        old(state).wf(),
        old(buf).wf(),
        op.opc is GotoPtr,
    ensures
        ops_kept(final(ctx), old(ctx)),
        final(state).wf(),
        final(state).allocatable == old(state).allocatable,
        appended(final(buf), old(buf)),
        op.args@[0].0 >= old(ctx).temps_view().len() ==> r == Err::<(), RegAllocError>(RegAllocError::BadTemp)
            && *final(ctx) == *old(ctx) && *final(state) == *old(state) && *final(buf) == *old(buf),
        r is Ok ==> globals_synced(final(ctx)),
        final(ctx).labels_view() == old(ctx).labels_view(),
{
    let ct = op_constraint(op.opc);
    let tidx = op.args[0];
    let reg = match temp_load_to(ctx, state, backend, buf, tidx, ct.args[0].regs, RegSet::new(), RegSet::new()) {
        Ok(r) => r,
        Err(e) => {
            return Err(e);
        },
    };
    if op.life.is_dead(0) {
        let r = temp_dead(ctx, state, tidx);
        if let Err(e) = r {
            return Err(e);
        }
    }
    let r = sync_globals(ctx, backend, buf);
    if let Err(e) = r {
        return Err(e);
    }
    let ghost synced = *ctx;
    let e: Vec<u8> = Vec::new();
    let c: Vec<u32> = Vec::new();
    let i = vec![reg];
    match emit_op(ctx, backend, buf, op, e.as_slice(), i.as_slice(), c.as_slice()) {
        Ok(_) => Ok(()),
        Err(e) => Err(e),
    }
}

/// A conditional branch: load both inputs, free those that die, sync the
/// globals, emit the compare and jump, and record the jump for patching when
/// the label is not yet resolved.
fn regalloc_brcond(
    ctx: &mut Context,
    state: &mut RegAllocState,
    backend: &X86_64CodeGen,
    buf: &mut CodeBuffer,
    op: &Op,
) -> (r: Result<(), RegAllocError>)
    requires
        old(ctx).wf(),
        old(state).wf(),
        old(buf).wf(),
        op.opc is BrCond,
    ensures
        ops_kept(final(ctx), old(ctx)),
        final(state).wf(),
        final(state).allocatable == old(state).allocatable,
        appended(final(buf), old(buf)),
        op.args@[0].0 >= old(ctx).temps_view().len() ==> r == Err::<(), RegAllocError>(RegAllocError::BadTemp)
            && *final(ctx) == *old(ctx) && *final(state) == *old(state) && *final(buf) == *old(buf),
        r is Ok ==> globals_synced(final(ctx)),
        forall|n: int|
            #![trigger uses_from(final(ctx).labels_view(), n)]
            n <= old(buf).offset && uses_from(old(ctx).labels_view(), n) ==> uses_from(final(ctx).labels_view(), n),
{
    let ct = op_constraint(op.opc);
    let life = op.life;
    let mut iregs: Vec<u8> = Vec::new();
    let mut i_allocated = RegSet::new();
    let mut i: usize = 0;
    while i < 2
        invariant
            i <= 2,
            iregs@.len() == i,
            regs_valid(iregs@),
            temps_only(ctx, old(ctx)),
            state.wf(),
            state.allocatable == old(state).allocatable,
            appended(buf, old(buf)),
            i == 0 ==> *ctx == *old(ctx) && *state == *old(state) && *buf == *old(buf),
            i > 0 ==> op.args@[0].0 < old(ctx).temps_view().len(),
        decreases 2 - i,
    {
        let tidx = op.args[i];
        let reg = match temp_load_to(ctx, state, backend, buf, tidx, ct.args[i].regs, i_allocated, RegSet::new()) {
            Ok(r) => r,
            Err(e) => {
                return Err(e);
            },
        };
        iregs.push(reg);
        i_allocated = i_allocated.set(reg);
        i = i + 1;
    }
    let cargs = const_args(op, 2, 2);
    let mut i: usize = 0;
    while i < 2
        invariant
            i <= 2,
            op.args@[0].0 < old(ctx).temps_view().len(),
            temps_only(ctx, old(ctx)),
            state.wf(),
            state.allocatable == old(state).allocatable,
            appended(buf, old(buf)),
        decreases 2 - i,
    {
        if life.is_dead(i as u32) {
            let r = temp_dead(ctx, state, op.args[i]);
            if let Err(e) = r {
                return Err(e);
            }
        }
        i = i + 1;
    }
    let r = sync_globals(ctx, backend, buf);
    if let Err(e) = r {
        return Err(e);
    }
    let label_id = cargs[1];
    if label_id as usize >= ctx.labels.len() {
        return Err(RegAllocError::BadLabel);
    }
    let resolved = ctx.label(label_id).has_value;
    let ghost buf_before_emit = *buf;
    let e: Vec<u8> = Vec::new();
    let g = emit_op(ctx, backend, buf, op, e.as_slice(), iregs.as_slice(), cargs.as_slice());
    if let Err(err) = g {
        return Err(err);
    }
    if !resolved {
        if buf.offset() < 4 {
            return Err(RegAllocError::BadLabel);
        }
        let patch_off = buf.offset() - 4;
        proof {
            assert(!(is_arith_op(op.opc) || is_mem_op(op.opc) || is_misc_op(op.opc)));
            assert(is_cond_op(op.opc));
            assert(buf.offset >= buf_before_emit.offset + 4);
        }
        let ghost before = *ctx;
        let l = ctx.label_mut(label_id);
        l.add_use(patch_off, RelocKind::Rel32);
        proof {
            assert forall|m: int|
                #![trigger uses_from(ctx.labels_view(), m)]
                m <= old(buf).offset && uses_from(old(ctx).labels_view(), m) implies uses_from(ctx.labels_view(), m) by {
                assert forall|li: int, k: int|
                    0 <= li < ctx.labels_view().len() && 0 <= k < ctx.labels_view()[li].uses@.len() implies m <= (
                    #[trigger] ctx.labels_view()[li].uses@[k]).offset by {
                    assert(before.labels_view() == old(ctx).labels_view());
                    if li == label_id && k == before.labels_view()[li].uses@.len() {
                    } else {
                        assert(ctx.labels_view()[li].uses@[k] == old(ctx).labels_view()[li].uses@[k]);
                    }
                }
            }
        }
    }
    Ok(())
}

} // verus!
