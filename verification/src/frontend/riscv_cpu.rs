use vstd::prelude::*;

verus! {

/// Number of general-purpose registers (x0-x31).
pub const NUM_GPRS: usize = 32;
/// Number of floating-point registers (f0-f31).
pub const NUM_FPRS: usize = 32;

/// Byte offset of the `pc` field.
pub const PC_OFFSET: i64 = 512;
/// Byte offset of the `guest_base` field.
pub const GUEST_BASE_OFFSET: i64 = 520;
/// Byte offset of the `load_res` field.
pub const LOAD_RES_OFFSET: i64 = 528;
/// Byte offset of the `load_val` field.
pub const LOAD_VAL_OFFSET: i64 = 536;
/// Byte offset of `fflags`.
pub const FFLAGS_OFFSET: i64 = 544;
/// Byte offset of `frm`.
pub const FRM_OFFSET: i64 = 552;
/// Byte offset of `ustatus`.
pub const USTATUS_OFFSET: i64 = 560;
/// Byte offset of `uie`.
pub const UIE_OFFSET: i64 = 568;
/// Byte offset of `utvec`.
pub const UTVEC_OFFSET: i64 = 576;
/// Byte offset of `uscratch`.
pub const USCRATCH_OFFSET: i64 = 584;
/// Byte offset of `uepc`.
pub const UEPC_OFFSET: i64 = 592;
/// Byte offset of `ucause`.
pub const UCAUSE_OFFSET: i64 = 600;
/// Byte offset of `utval`.
pub const UTVAL_OFFSET: i64 = 608;
/// Byte offset of `uip`.
pub const UIP_OFFSET: i64 = 616;

/// USTATUS FS bits mask.
pub const USTATUS_FS_MASK: u64 = 0x0000_6000;
/// USTATUS FS = Dirty.
pub const USTATUS_FS_DIRTY: u64 = 0x0000_6000;

/// RISC-V (RV64, user-mode) architectural state, laid out field after
/// field in 64-bit words so that IR globals can name fields by offset.
#[derive(Debug, Clone, Copy)]
pub struct RiscvCpu {
    pub gpr: [u64; NUM_GPRS],
    pub fpr: [u64; NUM_FPRS],
    pub pc: u64,
    pub guest_base: u64,
    pub load_res: u64,
    pub load_val: u64,
    pub fflags: u64,
    pub frm: u64,
    pub ustatus: u64,
    pub uie: u64,
    pub utvec: u64,
    pub uscratch: u64,
    pub uepc: u64,
    pub ucause: u64,
    pub utval: u64,
    pub uip: u64,
}

/// Byte offset of `gpr[i]`.
pub fn gpr_offset(i: usize) -> (r: i64)
    requires
        i * 8 <= i64::MAX,
    ensures
        r == i * 8,
{
    ((i as u64) * 8) as i64
}

/// Byte offset of `fpr[i]`: after the general-purpose registers.
pub fn fpr_offset(i: usize) -> (r: i64)
    requires
        (NUM_GPRS + i) * 8 <= i64::MAX,
    ensures
        r == (NUM_GPRS + i) * 8,
{
    (((NUM_GPRS as u64) + (i as u64)) * 8) as i64
}

impl RiscvCpu {
    /// Reset state: registers zero, no load reservation, FP state dirty.
    pub fn new() -> (c: Self)
        ensures
            forall|i: int| 0 <= i < NUM_GPRS ==> c.gpr@[i] == 0,
            forall|i: int| 0 <= i < NUM_FPRS ==> c.fpr@[i] == 0,
            c.pc == 0 && c.guest_base == 0,
            c.load_res == u64::MAX && c.load_val == 0,
            c.fflags == 0 && c.frm == 0,
            c.ustatus == USTATUS_FS_DIRTY,
            c.uie == 0 && c.utvec == 0 && c.uscratch == 0 && c.uepc == 0 && c.ucause == 0 && c.utval == 0
                && c.uip == 0,
    {
        RiscvCpu {
            gpr: [0u64; NUM_GPRS],
            fpr: [0u64; NUM_FPRS],
            pc: 0,
            guest_base: 0,
            load_res: u64::MAX,
            load_val: 0,
            fflags: 0,
            frm: 0,
            ustatus: USTATUS_FS_DIRTY,
            uie: 0,
            utvec: 0,
            uscratch: 0,
            uepc: 0,
            ucause: 0,
            utval: 0,
            uip: 0,
        }
    }
}

} // verus!
