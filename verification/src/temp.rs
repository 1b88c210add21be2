use vstd::prelude::*;

use crate::types::{TempVal, Type};

verus! {

/// Lifetime/scope of a temporary.
#[derive(Debug, Clone, Copy, PartialEq, Eq, Hash, Structural)]
pub enum TempKind {
    /// Live within a single extended basic block.
    Ebb,
    /// Live across the entire translation block.
    Tb,
    /// Persists across translation blocks, backed by a CPU state field.
    Global,
    /// Fixed to a specific host register.
    Fixed,
    /// Compile-time constant.
    Const,
}

/// Index into the context's temp pool.
#[derive(Debug, Clone, Copy, PartialEq, Eq, Hash, Structural)]
pub struct TempIdx(pub u32);

/// A temporary variable: its IR-level properties and the register
/// allocator's state for it.
#[derive(Debug, Clone, Copy)]
pub struct Temp {
    pub idx: TempIdx,
    /// The operand type of this temp.
    pub ty: Type,
    /// Base type (may differ for sub-parts of multi-register values).
    pub base_type: Type,
    pub kind: TempKind,
    /// Where the value currently lives.
    pub val_type: TempVal,
    /// Allocated host register (valid when `val_type` is `Reg`).
    pub reg: Option<u8>,
    /// Whether the in-memory copy is up to date with the register.
    pub mem_coherent: bool,
    /// Whether a memory slot has been allocated for spilling.
    pub mem_allocated: bool,
    /// For `Const` temps, the immediate value.
    pub val: u64,
    /// For `Global` temps, the base temp (env pointer) index.
    pub mem_base: Option<TempIdx>,
    /// For `Global` temps (and spilled locals), the offset from the base.
    pub mem_offset: i64,
    /// Debug name.
    pub name: Option<&'static str>,
}

impl Temp {
    /// An EBB-scoped temp: dead, no register, no memory slot.
    pub fn new_ebb(idx: TempIdx, ty: Type) -> (t: Self)
        ensures
            t.idx == idx,
            t.ty == ty,
            t.base_type == ty,
            t.kind == TempKind::Ebb,
            t.val_type == TempVal::Dead,
            t.reg is None,
            !t.mem_coherent,
            !t.mem_allocated,
            t.val == 0,
            t.mem_base is None,
            t.mem_offset == 0,
            t.name is None,
    {
        Temp {
            idx,
            ty,
            base_type: ty,
            kind: TempKind::Ebb,
            val_type: TempVal::Dead,
            reg: None,
            mem_coherent: false,
            mem_allocated: false,
            val: 0,
            mem_base: None,
            mem_offset: 0,
            name: None,
        }
    }

    /// A TB-scoped temp; otherwise as `new_ebb`.
    pub fn new_tb(idx: TempIdx, ty: Type) -> (t: Self)
        ensures
            t.idx == idx,
            t.ty == ty,
            t.base_type == ty,
            t.kind == TempKind::Tb,
            t.val_type == TempVal::Dead,
            t.reg is None,
            !t.mem_coherent,
            !t.mem_allocated,
            t.val == 0,
            t.mem_base is None,
            t.mem_offset == 0,
            t.name is None,
    {
        let mut t = Self::new_ebb(idx, ty);
        t.kind = TempKind::Tb;
        t
    }

    /// A constant temp holding `val`.
    pub fn new_const(idx: TempIdx, ty: Type, val: u64) -> (t: Self)
        ensures
            t.idx == idx,
            t.ty == ty,
            t.base_type == ty,
            t.kind == TempKind::Const,
            t.val_type == TempVal::Const,
            t.reg is None,
            !t.mem_coherent,
            !t.mem_allocated,
            t.val == val,
            t.mem_base is None,
            t.mem_offset == 0,
            t.name is None,
    {
        Temp {
            idx,
            ty,
            base_type: ty,
            kind: TempKind::Const,
            val_type: TempVal::Const,
            reg: None,
            mem_coherent: false,
            mem_allocated: false,
            val,
            mem_base: None,
            mem_offset: 0,
            name: None,
        }
    }

    /// A global temp living in memory at `base + offset`.
    pub fn new_global(idx: TempIdx, ty: Type, base: TempIdx, offset: i64, name: &'static str) -> (t:
        Self)
        ensures
            t.idx == idx,
            t.ty == ty,
            t.base_type == ty,
            t.kind == TempKind::Global,
            t.val_type == TempVal::Mem,
            t.reg is None,
            t.mem_coherent,
            t.mem_allocated,
            t.val == 0,
            t.mem_base == Some(base),
            t.mem_offset == offset,
            t.name == Some(name),
    {
        Temp {
            idx,
            ty,
            base_type: ty,
            kind: TempKind::Global,
            val_type: TempVal::Mem,
            reg: None,
            mem_coherent: true,
            mem_allocated: true,
            val: 0,
            mem_base: Some(base),
            mem_offset: offset,
            name: Some(name),
        }
    }

    /// A temp fixed to host register `reg`.
    pub fn new_fixed(idx: TempIdx, ty: Type, reg: u8, name: &'static str) -> (t: Self)
        ensures
            t.idx == idx,
            t.ty == ty,
            t.base_type == ty,
            t.kind == TempKind::Fixed,
            t.val_type == TempVal::Reg,
            t.reg == Some(reg),
            !t.mem_coherent,
            !t.mem_allocated,
            t.val == 0,
            t.mem_base is None,
            t.mem_offset == 0,
            t.name == Some(name),
    {
        Temp {
            idx,
            ty,
            base_type: ty,
            kind: TempKind::Fixed,
            val_type: TempVal::Reg,
            reg: Some(reg),
            mem_coherent: false,
            mem_allocated: false,
            val: 0,
            mem_base: None,
            mem_offset: 0,
            name: Some(name),
        }
    }

    pub fn is_const(&self) -> (r: bool)
        ensures
            r == (self.kind == TempKind::Const),
    {
        self.kind == TempKind::Const
    }

    pub fn is_global(&self) -> (r: bool)
        ensures
            r == (self.kind == TempKind::Global),
    {
        self.kind == TempKind::Global
    }

    pub fn is_fixed(&self) -> (r: bool)
        ensures
            r == (self.kind == TempKind::Fixed),
    {
        self.kind == TempKind::Fixed
    }

    pub open spec fn spec_is_global_or_fixed(&self) -> bool {
        self.kind == TempKind::Global || self.kind == TempKind::Fixed
    }

    /// Whether this temp is saved back to memory at block boundaries.
    pub fn is_global_or_fixed(&self) -> (r: bool)
        ensures
            r == self.spec_is_global_or_fixed(),
    {
        match self.kind {
            TempKind::Global | TempKind::Fixed => true,
            _ => false,
        }
    }
}

} // verus!
