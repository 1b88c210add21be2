use vstd::prelude::*;

use crate::backend::code_buffer::{le32, le64};
use crate::backend::regs::Reg;

verus! {

// -- Prefix flags carried above the opcode byte --

/// 0x0F escape.
pub const P_EXT: u32 = 0x100;
/// 0x0F 0x38 escape.
pub const P_EXT38: u32 = 0x200;
/// 0x66 operand-size prefix.
pub const P_DATA16: u32 = 0x400;
/// REX.W = 1.
pub const P_REXW: u32 = 0x1000;
/// The REG field names a byte register.
pub const P_REXB_R: u32 = 0x2000;
/// The R/M field names a byte register.
pub const P_REXB_RM: u32 = 0x4000;
/// 0x0F 0x3A escape.
pub const P_EXT3A: u32 = 0x10000;
/// 0xF3 prefix.
pub const P_SIMDF3: u32 = 0x20000;
/// 0xF2 prefix.
pub const P_SIMDF2: u32 = 0x40000;

/// The REX bits W, R and B that an opcode with REG field `r` and R/M field
/// `rm` needs (0 when none).
pub open spec fn rex_base(opc: u32, r: u8, rm: u8) -> u8 {
    (if opc & P_REXW != 0 { 8u8 } else { 0u8 }) | (if r >= 8 { 4u8 } else { 0u8 }) | (if rm >= 8 {
        1u8
    } else {
        0u8
    })
}

/// Whether a byte-register operand forces an otherwise empty REX prefix (so
/// that SPL, BPL, SIL and DIL are named instead of AH..BH).
pub open spec fn rex_forced(opc: u32, r: u8, rm: u8) -> bool {
    (opc & P_REXB_R != 0 && r >= 4) || (opc & P_REXB_RM != 0 && rm >= 4)
}

/// The REX bits of an instruction (0 = no REX prefix).
pub open spec fn rex_of(opc: u32, r: u8, rm: u8) -> u8 {
    if rex_base(opc, r, rm) == 0 && rex_forced(opc, r, rm) {
        0x40
    } else {
        rex_base(opc, r, rm)
    }
}

/// The REX bits with an index register (adds REX.X).
pub open spec fn rex_of3(opc: u32, r: u8, rm: u8, index: u8) -> u8 {
    let b = rex_base(opc, r, rm) | (if index >= 8 { 2u8 } else { 0u8 });
    if b == 0 && rex_forced(opc, r, rm) {
        0x40
    } else {
        b
    }
}

/// Legacy prefixes: operand size, then 0xF3/0xF2.
pub open spec fn enc_prefixes(opc: u32) -> Seq<u8> {
    (if opc & P_DATA16 != 0 {
        seq![0x66u8]
    } else {
        Seq::<u8>::empty()
    }) + (if opc & P_SIMDF3 != 0 {
        seq![0xF3u8]
    } else if opc & P_SIMDF2 != 0 {
        seq![0xF2u8]
    } else {
        Seq::<u8>::empty()
    })
}

/// The REX prefix byte, when there is one.
pub open spec fn enc_rex(rex: u8) -> Seq<u8> {
    if rex != 0 {
        seq![0x40u8 | rex]
    } else {
        Seq::<u8>::empty()
    }
}

/// The escape bytes of the opcode map.
pub open spec fn enc_escape(opc: u32) -> Seq<u8> {
    if opc & (P_EXT | P_EXT38 | P_EXT3A) != 0 {
        if opc & P_EXT38 != 0 {
            seq![0x0Fu8, 0x38u8]
        } else if opc & P_EXT3A != 0 {
            seq![0x0Fu8, 0x3Au8]
        } else {
            seq![0x0Fu8]
        }
    } else {
        Seq::<u8>::empty()
    }
}

/// Prefixes, REX, escape and opcode byte of an instruction.
pub open spec fn enc_opc(opc: u32, r: u8, rm: u8) -> Seq<u8> {
    enc_prefixes(opc) + enc_rex(rex_of(opc, r, rm)) + enc_escape(opc) + seq![opc as u8]
}

/// As `enc_opc`, for a memory operand with an index register.
pub open spec fn enc_opc3(opc: u32, r: u8, rm: u8, index: u8) -> Seq<u8> {
    enc_prefixes(opc) + enc_rex(rex_of3(opc, r, rm, index)) + enc_escape(opc) + seq![opc as u8]
}

/// The ModR/M byte of a register-direct operand.
pub open spec fn modrm_rr(r3: u8, rm3: u8) -> u8 {
    0xC0u8 | (r3 << 3u8) | rm3
}

/// ModR/M (+SIB, +displacement) for the memory operand `[base + offset]`;
/// `r3` is the REG field, `b3` the low bits of the base register.
/// RBP/R13 bases always take a displacement; RSP/R12 bases need a SIB byte.
pub open spec fn enc_mem(r3: u8, b3: u8, offset: i32) -> Seq<u8> {
    if offset == 0 && b3 != 5 {
        if b3 == 4 {
            seq![(r3 << 3u8) | 0x04u8, 0x24u8]
        } else {
            seq![(r3 << 3u8) | b3]
        }
    } else if -128 <= offset <= 127 {
        (if b3 == 4 {
            seq![0x44u8 | (r3 << 3u8), 0x24u8]
        } else {
            seq![0x40u8 | (r3 << 3u8) | b3]
        }) + seq![offset as u8]
    } else {
        (if b3 == 4 {
            seq![0x84u8 | (r3 << 3u8), 0x24u8]
        } else {
            seq![0x80u8 | (r3 << 3u8) | b3]
        }) + le32(offset as u32)
    }
}

/// The SIB byte for `base + index * 2^shift`.
pub open spec fn sib_byte(shift: u8, x3: u8, b3: u8) -> u8 {
    (shift << 6u8) | (x3 << 3u8) | b3
}

/// ModR/M + SIB + displacement for `[base + index * 2^shift + offset]`.
pub open spec fn enc_sib_mem(r3: u8, sib: u8, b3: u8, offset: i32) -> Seq<u8> {
    if offset == 0 && b3 != 5 {
        seq![(r3 << 3u8) | 0x04u8, sib]
    } else if -128 <= offset <= 127 {
        seq![0x44u8 | (r3 << 3u8), sib, offset as u8]
    } else {
        seq![0x84u8 | (r3 << 3u8), sib] + le32(offset as u32)
    }
}

/// Register-register form: opcode, then ModR/M with REG = `r`, R/M = `rm`.
pub open spec fn enc_modrm(opc: u32, r: Reg, rm: Reg) -> Seq<u8> {
    enc_opc(opc, r.spec_num(), rm.spec_num()) + seq![modrm_rr(r.spec_low3(), rm.spec_low3())]
}

/// Group form: opcode, then ModR/M with the /digit `ext` and R/M = `rm`.
pub open spec fn enc_modrm_ext(opc: u32, ext: u8, rm: Reg) -> Seq<u8> {
    enc_opc(opc, ext, rm.spec_num()) + seq![0xC0u8 | (ext << 3u8) | rm.spec_low3()]
}

/// Memory form `[base + offset]` with REG = `r`.
pub open spec fn enc_modrm_offset(opc: u32, r: Reg, base: Reg, offset: i32) -> Seq<u8> {
    enc_opc(opc, r.spec_num(), base.spec_num()) + enc_mem(r.spec_low3(), base.spec_low3(), offset)
}

/// Memory form `[base + offset]` with the /digit `ext`.
pub open spec fn enc_modrm_ext_offset(opc: u32, ext: u8, base: Reg, offset: i32) -> Seq<u8> {
    enc_opc(opc, ext, base.spec_num()) + enc_mem(ext, base.spec_low3(), offset)
}

/// Memory form `[base + index * 2^shift + offset]` with REG = `r`.
pub open spec fn enc_modrm_sib(opc: u32, r: Reg, base: Reg, index: Reg, shift: u8, offset: i32) -> Seq<u8> {
    enc_opc3(opc, r.spec_num(), base.spec_num(), index.spec_num()) + enc_sib_mem(
        r.spec_low3(),
        sib_byte(shift, index.spec_low3(), base.spec_low3()),
        base.spec_low3(),
        offset,
    )
}

/// The two- or three-byte VEX form of a register-register instruction with
/// the extra source `v`.
pub open spec fn enc_vex_modrm(opc: u32, r: Reg, v: Reg, rm: Reg) -> Seq<u8> {
    let r_bit: u8 = if r.spec_num() >= 8 { 0 } else { 0x80 };
    let x_bit: u8 = 0x40;
    let b_bit: u8 = if rm.spec_num() >= 8 { 0 } else { 0x20 };
    let vvvv: u8 = (!v.spec_num() & 0x0Fu8) << 3u8;
    let w: u8 = if opc & P_REXW != 0 { 0x80 } else { 0 };
    let pp: u8 = if opc & P_DATA16 != 0 {
        1
    } else if opc & P_SIMDF3 != 0 {
        2
    } else if opc & P_SIMDF2 != 0 {
        3
    } else {
        0
    };
    let mm: u8 = if opc & P_EXT38 != 0 {
        2
    } else if opc & P_EXT3A != 0 {
        3
    } else {
        1
    };
    (if mm == 1 && w == 0 && b_bit != 0 {
        seq![0xC5u8, r_bit | vvvv | pp]
    } else {
        seq![0xC4u8, r_bit | x_bit | b_bit | mm, w | vvvv | pp]
    }) + seq![opc as u8, modrm_rr(r.spec_low3(), rm.spec_low3())]
}

/// The little-endian 32-bit field of the displacement from `after` to
/// `target`.
pub open spec fn rel32(target: int, after: int) -> Seq<u8> {
    le32((target - after) as u32)
}

/// An immediate that fits a sign-extended byte.
pub open spec fn fits_i8(v: int) -> bool {
    -128 <= v <= 127
}

/// An immediate that fits a sign-extended 32-bit field.
pub open spec fn fits_i32(v: int) -> bool {
    i32::MIN <= v <= i32::MAX
}

// -- Building encodings into a byte vector --

pub fn push_opc(v: &mut Vec<u8>, opc: u32, r: u8, rm: u8)
    ensures
        final(v)@ == old(v)@ + enc_opc(opc, r, rm),
{
    let rex: u8 = (if opc & P_REXW != 0 { 8u8 } else { 0u8 }) | (if r >= 8 { 4u8 } else { 0u8 }) | (if rm
        >= 8 {
        1u8
    } else {
        0u8
    });
    let forced = (opc & P_REXB_R != 0 && r >= 4) || (opc & P_REXB_RM != 0 && rm >= 4);
    let rex = if rex == 0 && forced { 0x40u8 } else { rex };
    push_tail(v, opc, rex);
}

pub fn push_opc3(v: &mut Vec<u8>, opc: u32, r: u8, rm: u8, index: u8)
    ensures
        final(v)@ == old(v)@ + enc_opc3(opc, r, rm, index),
{
    let rex: u8 = (if opc & P_REXW != 0 { 8u8 } else { 0u8 }) | (if r >= 8 { 4u8 } else { 0u8 }) | (if rm
        >= 8 {
        1u8
    } else {
        0u8
    });
    let rex = rex | (if index >= 8 { 2u8 } else { 0u8 });
    let forced = (opc & P_REXB_R != 0 && r >= 4) || (opc & P_REXB_RM != 0 && rm >= 4);
    let rex = if rex == 0 && forced { 0x40u8 } else { rex };
    push_tail(v, opc, rex);
}

fn push_tail(v: &mut Vec<u8>, opc: u32, rex: u8)
    ensures
        final(v)@ == old(v)@ + enc_prefixes(opc) + enc_rex(rex) + enc_escape(opc) + seq![opc as u8],
{
    if opc & P_DATA16 != 0 {
        v.push(0x66);
    }
    if opc & P_SIMDF3 != 0 {
        v.push(0xF3);
    } else if opc & P_SIMDF2 != 0 {
        v.push(0xF2);
    }
    if rex != 0 {
        v.push(0x40 | rex);
    }
    if opc & (P_EXT | P_EXT38 | P_EXT3A) != 0 {
        v.push(0x0F);
        if opc & P_EXT38 != 0 {
            v.push(0x38);
        } else if opc & P_EXT3A != 0 {
            v.push(0x3A);
        }
    }
    v.push(opc as u8);
    assert(v@ =~= old(v)@ + enc_prefixes(opc) + enc_rex(rex) + enc_escape(opc) + seq![opc as u8]);
}

pub fn push_u32(v: &mut Vec<u8>, x: u32)
    ensures
        final(v)@ == old(v)@ + le32(x),
{
    v.push((x & 0xff) as u8);
    v.push(((x >> 8) & 0xff) as u8);
    v.push(((x >> 16) & 0xff) as u8);
    v.push(((x >> 24) & 0xff) as u8);
    assert(v@ =~= old(v)@ + le32(x));
}

pub fn push_u64(v: &mut Vec<u8>, x: u64)
    ensures
        final(v)@ == old(v)@ + le64(x),
{
    v.push((x & 0xff) as u8);
    v.push(((x >> 8) & 0xff) as u8);
    v.push(((x >> 16) & 0xff) as u8);
    v.push(((x >> 24) & 0xff) as u8);
    v.push(((x >> 32) & 0xff) as u8);
    v.push(((x >> 40) & 0xff) as u8);
    v.push(((x >> 48) & 0xff) as u8);
    v.push(((x >> 56) & 0xff) as u8);
    assert(v@ =~= old(v)@ + le64(x));
}

pub fn push_mem(v: &mut Vec<u8>, r3: u8, b3: u8, offset: i32)
    ensures
        final(v)@ == old(v)@ + enc_mem(r3, b3, offset),
{
    if offset == 0 && b3 != 5 {
        if b3 == 4 {
            v.push((r3 << 3) | 0x04);
            v.push(0x24);
        } else {
            v.push((r3 << 3) | b3);
        }
    } else if -128 <= offset && offset <= 127 {
        if b3 == 4 {
            v.push(0x44 | (r3 << 3));
            v.push(0x24);
        } else {
            v.push(0x40 | (r3 << 3) | b3);
        }
        v.push(offset as u8);
    } else {
        if b3 == 4 {
            v.push(0x84 | (r3 << 3));
            v.push(0x24);
        } else {
            v.push(0x80 | (r3 << 3) | b3);
        }
        push_u32(v, offset as u32);
    }
    assert(v@ =~= old(v)@ + enc_mem(r3, b3, offset));
}

pub fn push_sib_mem(v: &mut Vec<u8>, r3: u8, sib: u8, b3: u8, offset: i32)
    ensures
        final(v)@ == old(v)@ + enc_sib_mem(r3, sib, b3, offset),
{
    if offset == 0 && b3 != 5 {
        v.push((r3 << 3) | 0x04);
        v.push(sib);
    } else if -128 <= offset && offset <= 127 {
        v.push(0x44 | (r3 << 3));
        v.push(sib);
        v.push(offset as u8);
    } else {
        v.push(0x84 | (r3 << 3));
        v.push(sib);
        push_u32(v, offset as u32);
    }
    assert(v@ =~= old(v)@ + enc_sib_mem(r3, sib, b3, offset));
}

pub fn push_modrm(v: &mut Vec<u8>, opc: u32, r: Reg, rm: Reg)
    ensures
        final(v)@ == old(v)@ + enc_modrm(opc, r, rm),
{
    push_opc(v, opc, r.num(), rm.num());
    v.push(0xC0 | (r.low3() << 3) | rm.low3());
    assert(v@ =~= old(v)@ + enc_modrm(opc, r, rm));
}

pub fn push_modrm_ext(v: &mut Vec<u8>, opc: u32, ext: u8, rm: Reg)
    ensures
        final(v)@ == old(v)@ + enc_modrm_ext(opc, ext, rm),
{
    push_opc(v, opc, ext, rm.num());
    v.push(0xC0 | (ext << 3) | rm.low3());
    assert(v@ =~= old(v)@ + enc_modrm_ext(opc, ext, rm));
}

pub fn push_modrm_offset(v: &mut Vec<u8>, opc: u32, r: Reg, base: Reg, offset: i32)
    ensures
        final(v)@ == old(v)@ + enc_modrm_offset(opc, r, base, offset),
{
    push_opc(v, opc, r.num(), base.num());
    push_mem(v, r.low3(), base.low3(), offset);
    assert(v@ =~= old(v)@ + enc_modrm_offset(opc, r, base, offset));
}

pub fn push_modrm_ext_offset(v: &mut Vec<u8>, opc: u32, ext: u8, base: Reg, offset: i32)
    ensures
        final(v)@ == old(v)@ + enc_modrm_ext_offset(opc, ext, base, offset),
{
    push_opc(v, opc, ext, base.num());
    push_mem(v, ext, base.low3(), offset);
    assert(v@ =~= old(v)@ + enc_modrm_ext_offset(opc, ext, base, offset));
}

pub fn push_modrm_sib(v: &mut Vec<u8>, opc: u32, r: Reg, base: Reg, index: Reg, shift: u8, offset: i32)
    ensures
        final(v)@ == old(v)@ + enc_modrm_sib(opc, r, base, index, shift, offset),
{
    push_opc3(v, opc, r.num(), base.num(), index.num());
    let sib = (shift << 6) | (index.low3() << 3) | base.low3();
    push_sib_mem(v, r.low3(), sib, base.low3(), offset);
    assert(v@ =~= old(v)@ + enc_modrm_sib(opc, r, base, index, shift, offset));
}

pub fn push_vex_modrm(v: &mut Vec<u8>, opc: u32, r: Reg, vr: Reg, rm: Reg)
    ensures
        final(v)@ == old(v)@ + enc_vex_modrm(opc, r, vr, rm),
{
    let r_bit: u8 = if r.needs_rex() { 0 } else { 0x80 };
    let x_bit: u8 = 0x40;
    let b_bit: u8 = if rm.needs_rex() { 0 } else { 0x20 };
    let vvvv: u8 = (!vr.num() & 0x0F) << 3;
    let w: u8 = if opc & P_REXW != 0 { 0x80 } else { 0 };
    let pp: u8 = if opc & P_DATA16 != 0 {
        1
    } else if opc & P_SIMDF3 != 0 {
        2
    } else if opc & P_SIMDF2 != 0 {
        3
    } else {
        0
    };
    let mm: u8 = if opc & P_EXT38 != 0 {
        2
    } else if opc & P_EXT3A != 0 {
        3
    } else {
        1
    };
    if mm == 1 && w == 0 && b_bit != 0 {
        v.push(0xC5);
        v.push(r_bit | vvvv | pp);
    } else {
        v.push(0xC4);
        v.push(r_bit | x_bit | b_bit | mm);
        v.push(w | vvvv | pp);
    }
    v.push(opc as u8);
    v.push(0xC0 | (r.low3() << 3) | rm.low3());
    assert(v@ =~= old(v)@ + enc_vex_modrm(opc, r, vr, rm));
}

// -- Laws of the encoding --

/// The REX prefix carries exactly the high bits of the register fields and
/// the operand-width flag: when present it is 0100WRXB with W = REX.W
/// requested, R = REG field >= 8, B = R/M field >= 8.
pub proof fn lemma_rex_fields(opc: u32, r: u8, rm: u8)
    requires
        r < 16,
        rm < 16,
    ensures
        rex_of(opc, r, rm) != 0 <==> (opc & P_REXW != 0 || r >= 8 || rm >= 8 || rex_forced(opc, r, rm)),
        rex_of(opc, r, rm) != 0 ==> {
            let b = 0x40u8 | rex_of(opc, r, rm);
            &&& b >> 4u8 == 4
            &&& ((b >> 3u8) & 1 == 1) == (opc & P_REXW != 0)
            &&& ((b >> 2u8) & 1 == 1) == (r >= 8)
            &&& (b & 1 == 1) == (rm >= 8)
        },
{
    let w = opc & P_REXW != 0;
    let hi_r = r >= 8;
    let hi_b = rm >= 8;
    let x: u8 = (if w { 8u8 } else { 0u8 }) | (if hi_r { 4u8 } else { 0u8 }) | (if hi_b { 1u8 } else { 0u8 });
    assert(rex_base(opc, r, rm) == x);
    assert(x == 0 <==> (!w && !hi_r && !hi_b)) by (bit_vector)
        requires x == (if w { 8u8 } else { 0u8 }) | (if hi_r { 4u8 } else { 0u8 }) | (if hi_b { 1u8 } else { 0u8 });
    if x != 0 {
        let b = 0x40u8 | x;
        assert(b >> 4u8 == 4 && ((b >> 3u8) & 1 == 1) == w && ((b >> 2u8) & 1 == 1) == hi_r && (b & 1
            == 1) == hi_b) by (bit_vector)
            requires
                x == (if w { 8u8 } else { 0u8 }) | (if hi_r { 4u8 } else { 0u8 }) | (if hi_b { 1u8 } else { 0u8 }),
                b == 0x40u8 | x;
    } else {
        let b = 0x40u8 | 0x40u8;
        assert(b >> 4u8 == 4 && (b >> 3u8) & 1 == 0 && (b >> 2u8) & 1 == 0 && b & 1 == 0) by (bit_vector)
            requires b == 0x40u8 | 0x40u8;
    }
}

/// A register-direct ModR/M byte decodes back to its fields: mod = 3,
/// reg = the low bits of `r`, rm = the low bits of `rm`.
pub proof fn lemma_modrm_rr_fields(r: Reg, rm: Reg)
    ensures
        modrm_rr(r.spec_low3(), rm.spec_low3()) >> 6u8 == 3,
        (modrm_rr(r.spec_low3(), rm.spec_low3()) >> 3u8) & 7 == r.spec_num() % 8,
        modrm_rr(r.spec_low3(), rm.spec_low3()) & 7 == rm.spec_num() % 8,
{
    let a = r.spec_num();
    let b = rm.spec_num();
    assert(a < 16 && b < 16 ==> {
        let m = 0xC0u8 | ((a & 7) << 3u8) | (b & 7);
        m >> 6u8 == 3 && (m >> 3u8) & 7 == a % 8 && m & 7 == b % 8
    }) by (bit_vector);
}

/// A SIB byte decodes back to its fields.
pub proof fn lemma_sib_fields(shift: u8, index: Reg, base: Reg)
    requires
        shift <= 3,
    ensures
        sib_byte(shift, index.spec_low3(), base.spec_low3()) >> 6u8 == shift,
        (sib_byte(shift, index.spec_low3(), base.spec_low3()) >> 3u8) & 7 == index.spec_num() % 8,
        sib_byte(shift, index.spec_low3(), base.spec_low3()) & 7 == base.spec_num() % 8,
{
    let a = index.spec_num();
    let b = base.spec_num();
    assert(shift <= 3 && a < 16 && b < 16 ==> {
        let m = (shift << 6u8) | ((a & 7) << 3u8) | (b & 7);
        m >> 6u8 == shift && (m >> 3u8) & 7 == a % 8 && m & 7 == b % 8
    }) by (bit_vector);
}

/// The opcode part of an instruction takes at most six bytes (for any use).
pub broadcast proof fn lemma_enc_opc_len_auto(opc: u32, r: u8, rm: u8)
    ensures
        1 <= #[trigger] enc_opc(opc, r, rm).len() <= 6,
{
}

/// With an index register, the opcode part still takes at most six bytes.
pub broadcast proof fn lemma_enc_opc3_len_auto(opc: u32, r: u8, rm: u8, index: u8)
    ensures
        1 <= #[trigger] enc_opc3(opc, r, rm, index).len() <= 6,
{
}

/// A `[base + offset]` operand takes one to six bytes.
pub broadcast proof fn lemma_enc_mem_len_auto(r3: u8, b3: u8, offset: i32)
    ensures
        1 <= #[trigger] enc_mem(r3, b3, offset).len() <= 6,
{
}

/// A `[base + index * scale + offset]` operand takes two to six bytes.
pub broadcast proof fn lemma_enc_sib_mem_len_auto(r3: u8, sib: u8, b3: u8, offset: i32)
    ensures
        2 <= #[trigger] enc_sib_mem(r3, sib, b3, offset).len() <= 6,
{
}

/// A VEX register-register instruction takes four or five bytes.
pub broadcast proof fn lemma_enc_vex_len_auto(opc: u32, r: Reg, v: Reg, rm: Reg)
    ensures
        4 <= #[trigger] enc_vex_modrm(opc, r, v, rm).len() <= 5,
{
}

/// The encodings' length facts, for use together.
pub broadcast group group_enc_len {
    lemma_enc_opc_len_auto,
    lemma_enc_opc3_len_auto,
    lemma_enc_mem_len_auto,
    lemma_enc_sib_mem_len_auto,
    lemma_enc_vex_len_auto,
}

/// The opcode part of an instruction takes at most six bytes.
pub proof fn lemma_enc_opc_len(opc: u32, r: u8, rm: u8, index: u8)
    ensures
        1 <= enc_opc(opc, r, rm).len() <= 6,
        1 <= enc_opc3(opc, r, rm, index).len() <= 6,
{
}

/// A memory operand takes at most six bytes after the opcode.
pub proof fn lemma_enc_mem_len(r3: u8, b3: u8, sib: u8, offset: i32)
    ensures
        1 <= enc_mem(r3, b3, offset).len() <= 6,
        2 <= enc_sib_mem(r3, sib, b3, offset).len() <= 6,
{
}

} // verus!
