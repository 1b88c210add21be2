use vstd::prelude::*;

use crate::frontend::riscv_cpu::RiscvCpu;

verus! {

/// `fflags` bit: invalid operation.
pub const FFLAGS_NV: u64 = 0x10;
/// `fflags` bit: divide by zero.
pub const FFLAGS_DZ: u64 = 0x8;
/// `fflags` bit: overflow.
pub const FFLAGS_OF: u64 = 0x4;
/// `fflags` bit: underflow.
pub const FFLAGS_UF: u64 = 0x2;
/// `fflags` bit: inexact.
pub const FFLAGS_NX: u64 = 0x1;
/// All `fflags` bits.
pub const FFLAGS_MASK: u64 = 0x1f;

/// The rounding-mode field of `frm`.
pub const FRM_MASK: u64 = 0x7;
/// Rounding mode "dynamic": take it from `frm`.
pub const FRM_DYN: u64 = 0x7;

/// Position of `frm` within `fcsr`.
pub const FCSR_RD_SHIFT: u64 = 5;

/// Host (x86) floating-point exception flags, as `fetestexcept` reports them.
pub const FE_INVALID: i32 = 0x01;
pub const FE_DIVBYZERO: i32 = 0x04;
pub const FE_OVERFLOW: i32 = 0x08;
pub const FE_UNDERFLOW: i32 = 0x10;
pub const FE_INEXACT: i32 = 0x20;
pub const FE_ALL_EXCEPT: i32 = 0x3f;

/// Host (x86) rounding modes, as `fesetround` takes them.
pub const FE_TONEAREST: i32 = 0x0000;
pub const FE_DOWNWARD: i32 = 0x0400;
pub const FE_UPWARD: i32 = 0x0800;
pub const FE_TOWARDZERO: i32 = 0x0c00;

/// The RISC-V `fflags` bits that stand for the host exception flags `flags`.
pub open spec fn spec_fenv_fflags(flags: i32) -> u64 {
    (if flags & FE_INEXACT != 0 { FFLAGS_NX } else { 0 }) | (if flags & FE_UNDERFLOW != 0 {
        FFLAGS_UF
    } else {
        0
    }) | (if flags & FE_OVERFLOW != 0 { FFLAGS_OF } else { 0 }) | (if flags & FE_DIVBYZERO != 0 {
        FFLAGS_DZ
    } else {
        0
    }) | (if flags & FE_INVALID != 0 { FFLAGS_NV } else { 0 })
}

/// Translate host exception flags into RISC-V `fflags` bits.
pub fn map_fenv_flags(flags: i32) -> (r: u64)
    ensures
        r == spec_fenv_fflags(flags),
{
    let nx = if flags & FE_INEXACT != 0 { FFLAGS_NX } else { 0 };
    let uf = if flags & FE_UNDERFLOW != 0 { FFLAGS_UF } else { 0 };
    let of = if flags & FE_OVERFLOW != 0 { FFLAGS_OF } else { 0 };
    let dz = if flags & FE_DIVBYZERO != 0 { FFLAGS_DZ } else { 0 };
    let nv = if flags & FE_INVALID != 0 { FFLAGS_NV } else { 0 };
    nx | uf | of | dz | nv
}

/// Accumulate `flags` into the sticky `fflags` register.
pub fn update_fflags(env: &mut RiscvCpu, flags: u64)
    ensures
        *final(env) == (RiscvCpu { fflags: (old(env).fflags | flags) & FFLAGS_MASK, ..*old(env) }),
{
    env.fflags = (env.fflags | flags) & FFLAGS_MASK;
}

/// Raise the invalid-operation flag.
pub fn set_invalid(env: &mut RiscvCpu)
    ensures
        *final(env) == (RiscvCpu { fflags: (old(env).fflags | FFLAGS_NV) & FFLAGS_MASK, ..*old(env) }),
{
    update_fflags(env, FFLAGS_NV);
}

/// The RISC-V rounding mode an instruction uses: its own field, or `frm`
/// when the field says "dynamic".
pub open spec fn spec_effective_rm(frm: u64, rm: u64) -> u64 {
    if rm & FRM_MASK == FRM_DYN {
        frm & FRM_MASK
    } else {
        rm & FRM_MASK
    }
}

/// The host rounding mode for a RISC-V rounding mode: RNE and RMM round to
/// nearest, RTZ toward zero, RDN down, RUP up; any other is invalid and
/// falls back to nearest.
pub open spec fn spec_host_round(m: u64) -> i32 {
    if m == 0 {
        FE_TONEAREST
    } else if m == 1 {
        FE_TOWARDZERO
    } else if m == 2 {
        FE_DOWNWARD
    } else if m == 3 {
        FE_UPWARD
    } else if m == 4 {
        FE_TONEAREST
    } else {
        FE_TONEAREST
    }
}

/// The rounding modes RISC-V defines (RNE, RTZ, RDN, RUP, RMM).
pub open spec fn spec_rm_valid(m: u64) -> bool {
    m <= 4
}

/// The host rounding mode for the instruction's rounding mode `rm`; an
/// invalid mode raises the invalid-operation flag.
pub fn map_rm(env: &mut RiscvCpu, rm: u64) -> (r: i32)
    ensures
        r == spec_host_round(spec_effective_rm(old(env).frm, rm)),
        spec_rm_valid(spec_effective_rm(old(env).frm, rm)) ==> *final(env) == *old(env),
        !spec_rm_valid(spec_effective_rm(old(env).frm, rm)) ==> *final(env) == (RiscvCpu {
            fflags: (old(env).fflags | FFLAGS_NV) & FFLAGS_MASK,
            ..*old(env)
        }),
{
    let mut m = rm & FRM_MASK;
    if m == FRM_DYN {
        m = env.frm & FRM_MASK;
    }
    if m == 0 {
        FE_TONEAREST
    } else if m == 1 {
        FE_TOWARDZERO
    } else if m == 2 {
        FE_DOWNWARD
    } else if m == 3 {
        FE_UPWARD
    } else if m == 4 {
        FE_TONEAREST
    } else {
        set_invalid(env);
        FE_TONEAREST
    }
}

/// NaN-box a single-precision value into a 64-bit register.
pub fn nanbox_f32(bits: u32) -> (r: u64)
    ensures
        r == 0xffff_ffff_0000_0000u64 | (bits as u64),
{
    0xffff_ffff_0000_0000u64 | (bits as u64)
}

/// The canonical single-precision quiet NaN.
pub fn canonical_nan_f32() -> (r: u32)
    ensures
        r == 0x7fc0_0000,
{
    0x7fc0_0000
}

/// The canonical double-precision quiet NaN.
pub fn canonical_nan_f64() -> (r: u64)
    ensures
        r == 0x7ff8_0000_0000_0000u64,
{
    0x7ff8_0000_0000_0000u64
}

/// Whether a 64-bit register holds a properly NaN-boxed single.
pub open spec fn spec_is_boxed(raw: u64) -> bool {
    (raw >> 32u64) as u32 == 0xffff_ffffu32
}

/// The single-precision bits a register holds: its low half when it is
/// NaN-boxed, else the canonical NaN.
pub open spec fn spec_f32_bits(raw: u64) -> u32 {
    if spec_is_boxed(raw) {
        raw as u32
    } else {
        0x7fc0_0000
    }
}

/// Read a single-precision operand from a 64-bit register.
pub fn read_f32_bits(raw: u64) -> (r: u32)
    ensures
        r == spec_f32_bits(raw),
{
    if (raw >> 32u64) as u32 != 0xffff_ffffu32 {
        return canonical_nan_f32();
    }
    raw as u32
}

/// Biased exponent of a single.
pub open spec fn exp_f32(bits: u32) -> u32 {
    (bits >> 23u32) & 0xff
}

/// Fraction of a single.
pub open spec fn frac_f32(bits: u32) -> u32 {
    bits & 0x7f_ffff
}

/// Biased exponent of a double.
pub open spec fn exp_f64(bits: u64) -> u64 {
    (bits >> 52u64) & 0x7ff
}

/// Fraction of a double.
pub open spec fn frac_f64(bits: u64) -> u64 {
    bits & 0x000f_ffff_ffff_ffff
}

/// A single is a NaN: maximal exponent, nonzero fraction.
pub open spec fn spec_is_nan_f32(bits: u32) -> bool {
    exp_f32(bits) == 0xff && frac_f32(bits) != 0
}

/// A double is a NaN: maximal exponent, nonzero fraction.
pub open spec fn spec_is_nan_f64(bits: u64) -> bool {
    exp_f64(bits) == 0x7ff && frac_f64(bits) != 0
}

/// A single is a signaling NaN: a NaN whose quiet bit is clear.
pub open spec fn spec_is_snan_f32(bits: u32) -> bool {
    spec_is_nan_f32(bits) && bits & 0x40_0000 == 0
}

/// A double is a signaling NaN: a NaN whose quiet bit is clear.
pub open spec fn spec_is_snan_f64(bits: u64) -> bool {
    spec_is_nan_f64(bits) && bits & 0x8_0000_0000_0000 == 0
}

pub fn is_nan_f32(bits: u32) -> (r: bool)
    ensures
        r == spec_is_nan_f32(bits),
{
    let exp = (bits >> 23u32) & 0xff;
    let frac = bits & 0x7f_ffff;
    exp == 0xff && frac != 0
}

pub fn is_nan_f64(bits: u64) -> (r: bool)
    ensures
        r == spec_is_nan_f64(bits),
{
    let exp = (bits >> 52u64) & 0x7ff;
    let frac = bits & 0x000f_ffff_ffff_ffff;
    exp == 0x7ff && frac != 0
}

pub fn is_snan_f32(bits: u32) -> (r: bool)
    ensures
        r == spec_is_snan_f32(bits),
{
    is_nan_f32(bits) && (bits & 0x40_0000) == 0
}

pub fn is_snan_f64(bits: u64) -> (r: bool)
    ensures
        r == spec_is_snan_f64(bits),
{
    is_nan_f64(bits) && (bits & 0x8_0000_0000_0000) == 0
}

/// The `fclass` result: one bit for the class of the value, in the order
/// -inf, -normal, -subnormal, -0, +0, +subnormal, +normal, +inf, sNaN, qNaN.
pub open spec fn spec_fclass(neg: bool, exp_max: bool, exp_zero: bool, frac_zero: bool, quiet: bool) -> u64 {
    if exp_max && frac_zero {
        if neg { 0x1 } else { 0x80 }
    } else if !exp_max && !exp_zero {
        if neg { 0x2 } else { 0x40 }
    } else if exp_zero && !frac_zero {
        if neg { 0x4 } else { 0x20 }
    } else if exp_zero && frac_zero {
        if neg { 0x8 } else { 0x10 }
    } else if !quiet {
        0x100
    } else {
        0x200
    }
}

/// Classify a single.
pub fn fclass_f32(bits: u32) -> (r: u64)
    ensures
        r == spec_fclass(
            (bits >> 31u32) != 0,
            exp_f32(bits) == 0xff,
            exp_f32(bits) == 0,
            frac_f32(bits) == 0,
            frac_f32(bits) & 0x40_0000 != 0,
        ),
{
    let sign = (bits >> 31u32) != 0;
    let exp = (bits >> 23u32) & 0xff;
    let frac = bits & 0x7f_ffff;
    let is_inf = exp == 0xff && frac == 0;
    let is_nan = exp == 0xff && frac != 0;
    let is_zero = exp == 0 && frac == 0;
    let is_sub = exp == 0 && frac != 0;
    let is_norm = exp != 0 && exp != 0xff;
    let is_snan = is_nan && (frac & 0x40_0000) == 0;
    if is_inf && sign {
        0x1
    } else if is_norm && sign {
        0x2
    } else if is_sub && sign {
        0x4
    } else if is_zero && sign {
        0x8
    } else if is_zero && !sign {
        0x10
    } else if is_sub && !sign {
        0x20
    } else if is_norm && !sign {
        0x40
    } else if is_inf && !sign {
        0x80
    } else if is_snan {
        0x100
    } else {
        0x200
    }
}

/// Classify a double.
pub fn fclass_f64(bits: u64) -> (r: u64)
    ensures
        r == spec_fclass(
            (bits >> 63u64) != 0,
            exp_f64(bits) == 0x7ff,
            exp_f64(bits) == 0,
            frac_f64(bits) == 0,
            frac_f64(bits) & 0x8_0000_0000_0000 != 0,
        ),
{
    let sign = (bits >> 63u64) != 0;
    let exp = (bits >> 52u64) & 0x7ff;
    let frac = bits & 0x000f_ffff_ffff_ffff;
    let is_inf = exp == 0x7ff && frac == 0;
    let is_nan = exp == 0x7ff && frac != 0;
    let is_zero = exp == 0 && frac == 0;
    let is_sub = exp == 0 && frac != 0;
    let is_norm = exp != 0 && exp != 0x7ff;
    let is_snan = is_nan && (frac & 0x8_0000_0000_0000) == 0;
    if is_inf && sign {
        0x1
    } else if is_norm && sign {
        0x2
    } else if is_sub && sign {
        0x4
    } else if is_zero && sign {
        0x8
    } else if is_zero && !sign {
        0x10
    } else if is_sub && !sign {
        0x20
    } else if is_norm && !sign {
        0x40
    } else if is_inf && !sign {
        0x80
    } else if is_snan {
        0x100
    } else {
        0x200
    }
}

/// `fsgnj.s`: magnitude of `a`, sign of `b`.
pub fn fsgnj_s(a: u64, b: u64) -> (r: u64)
    ensures
        r == 0xffff_ffff_0000_0000u64 | (((spec_f32_bits(a) & 0x7fff_ffff) | (spec_f32_bits(b) & 0x8000_0000)) as u64),
{
    let ab = read_f32_bits(a);
    let bb = read_f32_bits(b);
    nanbox_f32((ab & 0x7fff_ffff) | (bb & 0x8000_0000))
}

/// `fsgnjn.s`: magnitude of `a`, opposite sign of `b`.
pub fn fsgnjn_s(a: u64, b: u64) -> (r: u64)
    ensures
        r == 0xffff_ffff_0000_0000u64 | (((spec_f32_bits(a) & 0x7fff_ffff) | (!spec_f32_bits(b) & 0x8000_0000)) as u64),
{
    let ab = read_f32_bits(a);
    let bb = read_f32_bits(b);
    nanbox_f32((ab & 0x7fff_ffff) | (!bb & 0x8000_0000))
}

/// `fsgnjx.s`: magnitude of `a`, sign of `a` xor sign of `b`.
pub fn fsgnjx_s(a: u64, b: u64) -> (r: u64)
    ensures
        r == 0xffff_ffff_0000_0000u64 | (((spec_f32_bits(a) & 0x7fff_ffff) | ((spec_f32_bits(a)
            ^ spec_f32_bits(b)) & 0x8000_0000)) as u64),
{
    let ab = read_f32_bits(a);
    let bb = read_f32_bits(b);
    nanbox_f32((ab & 0x7fff_ffff) | ((ab ^ bb) & 0x8000_0000))
}

/// `fsgnj.d`: magnitude of `a`, sign of `b`.
pub fn fsgnj_d(a: u64, b: u64) -> (r: u64)
    ensures
        r == (a & 0x7fff_ffff_ffff_ffff) | (b & 0x8000_0000_0000_0000),
{
    (a & 0x7fff_ffff_ffff_ffff) | (b & 0x8000_0000_0000_0000)
}

/// `fsgnjn.d`: magnitude of `a`, opposite sign of `b`.
pub fn fsgnjn_d(a: u64, b: u64) -> (r: u64)
    ensures
        r == (a & 0x7fff_ffff_ffff_ffff) | (!b & 0x8000_0000_0000_0000),
{
    (a & 0x7fff_ffff_ffff_ffff) | (!b & 0x8000_0000_0000_0000)
}

/// `fsgnjx.d`: magnitude of `a`, sign of `a` xor sign of `b`.
pub fn fsgnjx_d(a: u64, b: u64) -> (r: u64)
    ensures
        r == (a & 0x7fff_ffff_ffff_ffff) | ((a ^ b) & 0x8000_0000_0000_0000),
{
    (a & 0x7fff_ffff_ffff_ffff) | ((a ^ b) & 0x8000_0000_0000_0000)
}

/// `fcsr` as a read sees it: `frm` above `fflags`.
pub open spec fn spec_fcsr(env: RiscvCpu) -> u64 {
    (env.fflags & FFLAGS_MASK) | ((env.frm & FRM_MASK) << FCSR_RD_SHIFT)
}

/// Read `fcsr`.
pub fn fcsr_read(env: &RiscvCpu) -> (r: u64)
    ensures
        r == spec_fcsr(*env),
{
    (env.fflags & FFLAGS_MASK) | ((env.frm & FRM_MASK) << FCSR_RD_SHIFT)
}

/// Write `fcsr`, splitting `val` into `fflags` and `frm`; returns the old value.
pub fn fcsr_write(env: &mut RiscvCpu, val: u64) -> (r: u64)
    ensures
        r == spec_fcsr(*old(env)),
        *final(env) == (RiscvCpu {
            fflags: val & FFLAGS_MASK,
            frm: (val >> FCSR_RD_SHIFT) & FRM_MASK,
            ..*old(env)
        }),
{
    let old_val = (env.fflags & FFLAGS_MASK) | ((env.frm & FRM_MASK) << FCSR_RD_SHIFT);
    env.fflags = val & FFLAGS_MASK;
    env.frm = (val >> FCSR_RD_SHIFT) & FRM_MASK;
    old_val
}

} // verus!
