use vstd::prelude::*;

use crate::backend::code_buffer::{le32, le64, CodeBuffer};
use crate::backend::enc::{
    enc_modrm, enc_modrm_ext, enc_modrm_ext_offset, enc_modrm_offset, enc_modrm_sib, enc_opc,
    enc_vex_modrm, push_modrm, push_modrm_ext, push_modrm_ext_offset, push_modrm_offset,
    push_modrm_sib, push_opc, push_u32, push_u64, push_vex_modrm, rel32, P_DATA16, P_EXT, P_EXT38,
    P_REXB_R, P_REXB_RM, P_REXW, P_SIMDF3, fits_i32,
};
use crate::backend::regs::Reg;
use crate::types::Cond;

verus! {

// -- Opcode constants --

pub const OPC_ARITH_EVIB: u32 = 0x83;
pub const OPC_ARITH_EVIZ: u32 = 0x81;
pub const OPC_ARITH_GVEV: u32 = 0x03;
pub const OPC_ARITH_EVGV: u32 = 0x01;
pub const OPC_SHIFT_1: u32 = 0xD1;
pub const OPC_SHIFT_IB: u32 = 0xC1;
pub const OPC_SHIFT_CL: u32 = 0xD3;
pub const OPC_MOVB_EVGV: u32 = 0x88;
pub const OPC_MOVL_EVGV: u32 = 0x89;
pub const OPC_MOVL_GVEV: u32 = 0x8B;
pub const OPC_MOVB_EVIZ: u32 = 0xC6;
pub const OPC_MOVL_EVIZ: u32 = 0xC7;
pub const OPC_MOVL_IV: u32 = 0xB8;
pub const OPC_MOVZBL: u32 = 0xB6 | P_EXT;
pub const OPC_MOVZWL: u32 = 0xB7 | P_EXT;
pub const OPC_MOVSBL: u32 = 0xBE | P_EXT;
pub const OPC_MOVSWL: u32 = 0xBF | P_EXT;
pub const OPC_MOVSLQ: u32 = 0x63 | P_REXW;
/// 0x0F 0x80+cc.
pub const OPC_JCC_LONG: u32 = 0x180;
pub const OPC_JMP_SHORT: u32 = 0xEB;
pub const OPC_JMP_LONG: u32 = 0xE9;
pub const OPC_CALL_JZ: u32 = 0xE8;
pub const OPC_BSF: u32 = 0xBC | P_EXT;
pub const OPC_BSR: u32 = 0xBD | P_EXT;
pub const OPC_LZCNT: u32 = 0xBD | P_EXT | P_SIMDF3;
pub const OPC_TZCNT: u32 = 0xBC | P_EXT | P_SIMDF3;
pub const OPC_POPCNT: u32 = 0xB8 | P_EXT | P_SIMDF3;
/// 0x0F 0xC8+rd.
pub const OPC_BSWAP: u32 = 0x1C8;
pub const OPC_ANDN: u32 = 0xF2 | P_EXT38;
/// 0x0F 0x40+cc.
pub const OPC_CMOVCC: u32 = 0x140;
/// 0x0F 0x90+cc, byte register in R/M.
pub const OPC_SETCC: u32 = 0x4190;
pub const OPC_TESTB: u32 = 0x84;
pub const OPC_TESTL: u32 = 0x85;
pub const OPC_GRP3_EV: u32 = 0xF7;
pub const OPC_GRP3_EB: u32 = 0xF6;
pub const OPC_GRP5: u32 = 0xFF;
pub const OPC_GRPBT: u32 = 0xBA | P_EXT;
pub const OPC_IMUL_GVEV: u32 = 0xAF | P_EXT;
pub const OPC_IMUL_GVEVIB: u32 = 0x6B;
pub const OPC_IMUL_GVEVIZ: u32 = 0x69;
pub const OPC_LEA: u32 = 0x8D;
pub const OPC_XCHG_AX_R32: u32 = 0x90;
pub const OPC_XCHG_EVGV: u32 = 0x87;
pub const OPC_PUSH_R32: u32 = 0x50;
pub const OPC_POP_R32: u32 = 0x58;
pub const OPC_RET: u32 = 0xC3;
pub const OPC_UD2: u32 = 0x0B | P_EXT;
pub const OPC_PUSH_IZ: u32 = 0x68;
pub const OPC_PUSH_IB: u32 = 0x6A;
pub const OPC_SHLD_IB: u32 = 0xA4 | P_EXT;
pub const OPC_SHRD_IB: u32 = 0xAC | P_EXT;

// -- Sub-operation enums --

/// Arithmetic sub-opcodes (the /digit of 0x81/0x83, shifted into 0x03).
#[derive(Debug, Clone, Copy, PartialEq, Eq, Structural)]
pub enum ArithOp {
    Add,
    Or,
    Adc,
    Sbb,
    And,
    Sub,
    Xor,
    Cmp,
}

impl ArithOp {
    pub open spec fn spec_code(self) -> u8 {
        match self {
            ArithOp::Add => 0,
            ArithOp::Or => 1,
            ArithOp::Adc => 2,
            ArithOp::Sbb => 3,
            ArithOp::And => 4,
            ArithOp::Sub => 5,
            ArithOp::Xor => 6,
            ArithOp::Cmp => 7,
        }
    }

    pub fn code(self) -> (r: u8)
        ensures
            r == self.spec_code(),
            r < 8,
    {
        match self {
            ArithOp::Add => 0,
            ArithOp::Or => 1,
            ArithOp::Adc => 2,
            ArithOp::Sbb => 3,
            ArithOp::And => 4,
            ArithOp::Sub => 5,
            ArithOp::Xor => 6,
            ArithOp::Cmp => 7,
        }
    }
}

/// Shift sub-opcodes (the /digit of 0xC1/0xD1/0xD3).
#[derive(Debug, Clone, Copy, PartialEq, Eq, Structural)]
pub enum ShiftOp {
    Rol,
    Ror,
    Shl,
    Shr,
    Sar,
}

impl ShiftOp {
    pub open spec fn spec_code(self) -> u8 {
        match self {
            ShiftOp::Rol => 0,
            ShiftOp::Ror => 1,
            ShiftOp::Shl => 4,
            ShiftOp::Shr => 5,
            ShiftOp::Sar => 7,
        }
    }

    pub fn code(self) -> (r: u8)
        ensures
            r == self.spec_code(),
            r < 8,
    {
        match self {
            ShiftOp::Rol => 0,
            ShiftOp::Ror => 1,
            ShiftOp::Shl => 4,
            ShiftOp::Shr => 5,
            ShiftOp::Sar => 7,
        }
    }
}

/// Group 3 extension codes (the /digit of 0xF7).
#[derive(Debug, Clone, Copy, PartialEq, Eq, Structural)]
pub enum Ext3Op {
    Not,
    Neg,
    Mul,
    Imul,
    Div,
    Idiv,
}

impl Ext3Op {
    pub open spec fn spec_code(self) -> u8 {
        match self {
            Ext3Op::Not => 2,
            Ext3Op::Neg => 3,
            Ext3Op::Mul => 4,
            Ext3Op::Imul => 5,
            Ext3Op::Div => 6,
            Ext3Op::Idiv => 7,
        }
    }

    pub fn code(self) -> (r: u8)
        ensures
            r == self.spec_code(),
    {
        match self {
            Ext3Op::Not => 2,
            Ext3Op::Neg => 3,
            Ext3Op::Mul => 4,
            Ext3Op::Imul => 5,
            Ext3Op::Div => 6,
            Ext3Op::Idiv => 7,
        }
    }
}

/// Group 5 extension codes (the /digit of 0xFF).
#[derive(Debug, Clone, Copy, PartialEq, Eq, Structural)]
pub enum Ext5Op {
    IncEv,
    DecEv,
    CallN,
    JmpN,
}

impl Ext5Op {
    pub open spec fn spec_code(self) -> u8 {
        match self {
            Ext5Op::IncEv => 0,
            Ext5Op::DecEv => 1,
            Ext5Op::CallN => 2,
            Ext5Op::JmpN => 4,
        }
    }

    pub fn code(self) -> (r: u8)
        ensures
            r == self.spec_code(),
    {
        match self {
            Ext5Op::IncEv => 0,
            Ext5Op::DecEv => 1,
            Ext5Op::CallN => 2,
            Ext5Op::JmpN => 4,
        }
    }
}

/// Bit-test group extension codes (the /digit of 0x0F 0xBA).
#[derive(Debug, Clone, Copy, PartialEq, Eq, Structural)]
pub enum GrpBtOp {
    Bt,
    Bts,
    Btr,
    Btc,
}

impl GrpBtOp {
    pub open spec fn spec_code(self) -> u8 {
        match self {
            GrpBtOp::Bt => 4,
            GrpBtOp::Bts => 5,
            GrpBtOp::Btr => 6,
            GrpBtOp::Btc => 7,
        }
    }

    pub fn code(self) -> (r: u8)
        ensures
            r == self.spec_code(),
    {
        match self {
            GrpBtOp::Bt => 4,
            GrpBtOp::Bts => 5,
            GrpBtOp::Btr => 6,
            GrpBtOp::Btc => 7,
        }
    }
}

/// x86 condition codes for Jcc/SETcc/CMOVcc.
#[derive(Debug, Clone, Copy, PartialEq, Eq, Structural)]
pub enum X86Cond {
    Jo,
    Jno,
    Jb,
    Jae,
    Je,
    Jne,
    Jbe,
    Ja,
    Js,
    Jns,
    Jp,
    Jnp,
    Jl,
    Jge,
    Jle,
    Jg,
}

impl X86Cond {
    /// The 4-bit condition code.
    pub open spec fn spec_code(self) -> u8 {
        match self {
            X86Cond::Jo => 0,
            X86Cond::Jno => 1,
            X86Cond::Jb => 2,
            X86Cond::Jae => 3,
            X86Cond::Je => 4,
            X86Cond::Jne => 5,
            X86Cond::Jbe => 6,
            X86Cond::Ja => 7,
            X86Cond::Js => 8,
            X86Cond::Jns => 9,
            X86Cond::Jp => 10,
            X86Cond::Jnp => 11,
            X86Cond::Jl => 12,
            X86Cond::Jge => 13,
            X86Cond::Jle => 14,
            X86Cond::Jg => 15,
        }
    }

    pub open spec fn spec_from_code(c: u8) -> X86Cond {
        if c == 0 {
            X86Cond::Jo
        } else if c == 1 {
            X86Cond::Jno
        } else if c == 2 {
            X86Cond::Jb
        } else if c == 3 {
            X86Cond::Jae
        } else if c == 4 {
            X86Cond::Je
        } else if c == 5 {
            X86Cond::Jne
        } else if c == 6 {
            X86Cond::Jbe
        } else if c == 7 {
            X86Cond::Ja
        } else if c == 8 {
            X86Cond::Js
        } else if c == 9 {
            X86Cond::Jns
        } else if c == 10 {
            X86Cond::Jp
        } else if c == 11 {
            X86Cond::Jnp
        } else if c == 12 {
            X86Cond::Jl
        } else if c == 13 {
            X86Cond::Jge
        } else if c == 14 {
            X86Cond::Jle
        } else {
            X86Cond::Jg
        }
    }

    pub fn code(self) -> (r: u8)
        ensures
            r == self.spec_code(),
            r < 16,
    {
        match self {
            X86Cond::Jo => 0,
            X86Cond::Jno => 1,
            X86Cond::Jb => 2,
            X86Cond::Jae => 3,
            X86Cond::Je => 4,
            X86Cond::Jne => 5,
            X86Cond::Jbe => 6,
            X86Cond::Ja => 7,
            X86Cond::Js => 8,
            X86Cond::Jns => 9,
            X86Cond::Jp => 10,
            X86Cond::Jnp => 11,
            X86Cond::Jl => 12,
            X86Cond::Jge => 13,
            X86Cond::Jle => 14,
            X86Cond::Jg => 15,
        }
    }

    pub fn from_code(c: u8) -> (r: X86Cond)
        requires
            c < 16,
        ensures
            r == X86Cond::spec_from_code(c),
            r.spec_code() == c,
    {
        match c {
            0 => X86Cond::Jo,
            1 => X86Cond::Jno,
            2 => X86Cond::Jb,
            3 => X86Cond::Jae,
            4 => X86Cond::Je,
            5 => X86Cond::Jne,
            6 => X86Cond::Jbe,
            7 => X86Cond::Ja,
            8 => X86Cond::Js,
            9 => X86Cond::Jns,
            10 => X86Cond::Jp,
            11 => X86Cond::Jnp,
            12 => X86Cond::Jl,
            13 => X86Cond::Jge,
            14 => X86Cond::Jle,
            _ => X86Cond::Jg,
        }
    }

    pub open spec fn spec_from_tcg(cond: Cond) -> X86Cond {
        match cond {
            Cond::Eq | Cond::TstEq => X86Cond::Je,
            Cond::Ne | Cond::TstNe => X86Cond::Jne,
            Cond::Lt => X86Cond::Jl,
            Cond::Ge => X86Cond::Jge,
            Cond::Le => X86Cond::Jle,
            Cond::Gt => X86Cond::Jg,
            Cond::Ltu => X86Cond::Jb,
            Cond::Geu => X86Cond::Jae,
            Cond::Leu => X86Cond::Jbe,
            Cond::Gtu => X86Cond::Ja,
            Cond::Always => X86Cond::Je,
            Cond::Never => X86Cond::Jne,
        }
    }

    /// Map an IR condition to an x86 condition code. `Always` and `Never`
    /// have no Jcc; they map to `Je` and `Jne`.
    pub fn from_tcg(cond: Cond) -> (r: X86Cond)
        ensures
            r == X86Cond::spec_from_tcg(cond),
    {
        match cond {
            Cond::Eq | Cond::TstEq => X86Cond::Je,
            Cond::Ne | Cond::TstNe => X86Cond::Jne,
            Cond::Lt => X86Cond::Jl,
            Cond::Ge => X86Cond::Jge,
            Cond::Le => X86Cond::Jle,
            Cond::Gt => X86Cond::Jg,
            Cond::Ltu => X86Cond::Jb,
            Cond::Geu => X86Cond::Jae,
            Cond::Leu => X86Cond::Jbe,
            Cond::Gtu => X86Cond::Ja,
            Cond::Always => X86Cond::Je,
            Cond::Never => X86Cond::Jne,
        }
    }

    /// The inverted condition: the code with its low bit flipped.
    pub fn invert(self) -> (r: X86Cond)
        ensures
            r == X86Cond::spec_from_code(self.spec_code() ^ 1u8),
    {
        let c = self.code();
        assert(c < 16 ==> c ^ 1 < 16) by (bit_vector);
        X86Cond::from_code(c ^ 1)
    }
}

/// Inverting an x86 condition twice gives it back, and the mapping of an IR
/// condition to x86 commutes with inversion for every real comparison.
pub proof fn lemma_x86cond_invert(c: X86Cond, t: Cond)
    ensures
        X86Cond::spec_from_code(X86Cond::spec_from_code(c.spec_code() ^ 1u8).spec_code() ^ 1u8) == c,
        !(t is Always) && !(t is Never) ==> X86Cond::spec_from_code(
            X86Cond::spec_from_tcg(t).spec_code() ^ 1u8,
        ) == X86Cond::spec_from_tcg(t.spec_invert()),
{
    let k = c.spec_code();
    assert(k < 16 ==> (k ^ 1u8) < 16 && ((k ^ 1u8) ^ 1u8) == k) by (bit_vector);
    assert(4u8 ^ 1u8 == 5u8 && 5u8 ^ 1u8 == 4u8 && 12u8 ^ 1u8 == 13u8 && 13u8 ^ 1u8 == 12u8 && 14u8 ^ 1u8 == 15u8
        && 15u8 ^ 1u8 == 14u8 && 2u8 ^ 1u8 == 3u8 && 3u8 ^ 1u8 == 2u8 && 6u8 ^ 1u8 == 7u8 && 7u8 ^ 1u8 == 6u8)
        by (bit_vector);
}

fn rexw_flag(rexw: bool) -> (r: u32)
    ensures
        r == (if rexw { P_REXW } else { 0 }),
{
    if rexw {
        P_REXW
    } else {
        0
    }
}

/// `P_REXW` when `rexw`.
pub open spec fn wflag(rexw: bool) -> u32 {
    if rexw {
        P_REXW
    } else {
        0
    }
}


/// `opc` with the arithmetic sub-operation `op` in bits 3..5 (so 0x03
/// becomes the `op r, r/m` form and 0x01 the `op r/m, r` form).
pub open spec fn arith_opc(base: u32, op: ArithOp, rexw: bool) -> u32 {
    (base | ((op.spec_code() as u32) << 3u32)) | wflag(rexw)
}

fn arith_opc_exec(base: u32, op: ArithOp, rexw: bool) -> (r: u32)
    ensures
        r == arith_opc(base, op, rexw),
{
    (base | ((op.code() as u32) << 3)) | rexw_flag(rexw)
}

// -- Core encoding functions --

/// Emit prefixes, REX, escape and opcode byte; `r` and `rm` are the raw
/// numbers of the REG and R/M fields (0 where unused).
pub fn emit_opc(buf: &mut CodeBuffer, opc: u32, r: u8, rm: u8)
    requires
        old(buf).has_room(enc_opc(opc, r, rm).len() as int),
    ensures
        final(buf).emitted(old(buf), enc_opc(opc, r, rm)),
{
    let mut v: Vec<u8> = Vec::new();
    push_opc(&mut v, opc, r, rm);
    assert(v@ =~= enc_opc(opc, r, rm));
    buf.emit_bytes(v.as_slice());
}

/// Emit opcode + ModR/M for a register-register operation.
pub fn emit_modrm(buf: &mut CodeBuffer, opc: u32, r: Reg, rm: Reg)
    requires
        old(buf).has_room(enc_modrm(opc, r, rm).len() as int),
    ensures
        final(buf).emitted(old(buf), enc_modrm(opc, r, rm)),
{
    let mut v: Vec<u8> = Vec::new();
    push_modrm(&mut v, opc, r, rm);
    assert(v@ =~= enc_modrm(opc, r, rm));
    buf.emit_bytes(v.as_slice());
}

/// Emit opcode + ModR/M with the /digit `ext` (group opcodes).
pub fn emit_modrm_ext(buf: &mut CodeBuffer, opc: u32, ext: u8, rm: Reg)
    requires
        old(buf).has_room(enc_modrm_ext(opc, ext, rm).len() as int),
    ensures
        final(buf).emitted(old(buf), enc_modrm_ext(opc, ext, rm)),
{
    let mut v: Vec<u8> = Vec::new();
    push_modrm_ext(&mut v, opc, ext, rm);
    assert(v@ =~= enc_modrm_ext(opc, ext, rm));
    buf.emit_bytes(v.as_slice());
}

/// Emit opcode + ModR/M (+SIB) + displacement for `[base + offset]`.
pub fn emit_modrm_offset(buf: &mut CodeBuffer, opc: u32, r: Reg, base: Reg, offset: i32)
    requires
        old(buf).has_room(enc_modrm_offset(opc, r, base, offset).len() as int),
    ensures
        final(buf).emitted(old(buf), enc_modrm_offset(opc, r, base, offset)),
{
    let mut v: Vec<u8> = Vec::new();
    push_modrm_offset(&mut v, opc, r, base, offset);
    assert(v@ =~= enc_modrm_offset(opc, r, base, offset));
    buf.emit_bytes(v.as_slice());
}

/// Emit opcode + ModR/M + SIB for `[base + index * 2^shift + offset]`.
pub fn emit_modrm_sib(buf: &mut CodeBuffer, opc: u32, r: Reg, base: Reg, index: Reg, shift: u8, offset: i32)
    requires
        index != Reg::Rsp,
        shift <= 3,
        old(buf).has_room(enc_modrm_sib(opc, r, base, index, shift, offset).len() as int),
    ensures
        final(buf).emitted(old(buf), enc_modrm_sib(opc, r, base, index, shift, offset)),
{
    let mut v: Vec<u8> = Vec::new();
    push_modrm_sib(&mut v, opc, r, base, index, shift, offset);
    assert(v@ =~= enc_modrm_sib(opc, r, base, index, shift, offset));
    buf.emit_bytes(v.as_slice());
}

/// Emit opcode + ModR/M with the /digit `ext` for `[base + offset]`.
pub fn emit_modrm_ext_offset(buf: &mut CodeBuffer, opc: u32, ext: u8, base: Reg, offset: i32)
    requires
        old(buf).has_room(enc_modrm_ext_offset(opc, ext, base, offset).len() as int),
    ensures
        final(buf).emitted(old(buf), enc_modrm_ext_offset(opc, ext, base, offset)),
{
    let mut v: Vec<u8> = Vec::new();
    push_modrm_ext_offset(&mut v, opc, ext, base, offset);
    assert(v@ =~= enc_modrm_ext_offset(opc, ext, base, offset));
    buf.emit_bytes(v.as_slice());
}

/// The bytes of `emit_arith_rr`.
pub open spec fn enc_arith_rr(op: ArithOp, rexw: bool, dst: Reg, src: Reg) -> Seq<u8> {
    enc_modrm(arith_opc(OPC_ARITH_GVEV, op, rexw), dst, src)
}

/// Append the bytes of `emit_arith_rr` to `v`.
pub fn put_arith_rr(v: &mut Vec<u8>, op: ArithOp, rexw: bool, dst: Reg, src: Reg)
    ensures
        final(v)@ == old(v)@ + enc_arith_rr(op, rexw, dst, src),
{
    let ghost v0 = v@;
    push_modrm(v, arith_opc_exec(OPC_ARITH_GVEV, op, rexw), dst, src);
    assert(v@ =~= v0 + enc_arith_rr(op, rexw, dst, src));
}

/// Arithmetic `op dst, src` (ADD/OR/ADC/SBB/AND/SUB/XOR/CMP).
pub fn emit_arith_rr(buf: &mut CodeBuffer, op: ArithOp, rexw: bool, dst: Reg, src: Reg)
    requires
        old(buf).has_room(enc_arith_rr(op, rexw, dst, src).len() as int),
    ensures
        final(buf).emitted(old(buf), enc_arith_rr(op, rexw, dst, src)),
{
    let mut v: Vec<u8> = Vec::new();
    put_arith_rr(&mut v, op, rexw, dst, src);
    assert(v@ =~= enc_arith_rr(op, rexw, dst, src));
    buf.emit_bytes(v.as_slice());
}

/// The bytes of `emit_arith_ri`.
pub open spec fn enc_arith_ri(op: ArithOp, rexw: bool, dst: Reg, imm: i32) -> Seq<u8> {
    if -128 <= imm <= 127 {
        enc_modrm_ext(OPC_ARITH_EVIB | wflag(rexw), op.spec_code(), dst) + seq![imm as u8]
    } else {
        enc_modrm_ext(OPC_ARITH_EVIZ | wflag(rexw), op.spec_code(), dst) + le32(imm as u32)
    }
}

/// Append the bytes of `emit_arith_ri` to `v`.
pub fn put_arith_ri(v: &mut Vec<u8>, op: ArithOp, rexw: bool, dst: Reg, imm: i32)
    ensures
        final(v)@ == old(v)@ + enc_arith_ri(op, rexw, dst, imm),
{
    let ghost v0 = v@;
    let w = rexw_flag(rexw);
    if -128 <= imm && imm <= 127 {
        push_modrm_ext(v, OPC_ARITH_EVIB | w, op.code(), dst);
        v.push(imm as u8);
    } else {
        push_modrm_ext(v, OPC_ARITH_EVIZ | w, op.code(), dst);
        push_u32(v, imm as u32);
    }
    assert(v@ =~= v0 + enc_arith_ri(op, rexw, dst, imm));
}

/// Arithmetic `op dst, imm`: the sign-extended imm8 form when the immediate fits a byte, else imm32.
pub fn emit_arith_ri(buf: &mut CodeBuffer, op: ArithOp, rexw: bool, dst: Reg, imm: i32)
    requires
        old(buf).has_room(enc_arith_ri(op, rexw, dst, imm).len() as int),
    ensures
        final(buf).emitted(old(buf), enc_arith_ri(op, rexw, dst, imm)),
{
    let mut v: Vec<u8> = Vec::new();
    put_arith_ri(&mut v, op, rexw, dst, imm);
    assert(v@ =~= enc_arith_ri(op, rexw, dst, imm));
    buf.emit_bytes(v.as_slice());
}

/// The bytes of `emit_arith_mr`.
pub open spec fn enc_arith_mr(op: ArithOp, rexw: bool, base: Reg, offset: i32, src: Reg) -> Seq<u8> {
    enc_modrm_offset(arith_opc(OPC_ARITH_EVGV, op, rexw), src, base, offset)
}

/// Append the bytes of `emit_arith_mr` to `v`.
pub fn put_arith_mr(v: &mut Vec<u8>, op: ArithOp, rexw: bool, base: Reg, offset: i32, src: Reg)
    ensures
        final(v)@ == old(v)@ + enc_arith_mr(op, rexw, base, offset, src),
{
    let ghost v0 = v@;
    push_modrm_offset(v, arith_opc_exec(OPC_ARITH_EVGV, op, rexw), src, base, offset);
    assert(v@ =~= v0 + enc_arith_mr(op, rexw, base, offset, src));
}

/// Arithmetic `op [base + offset], src` (store form).
pub fn emit_arith_mr(buf: &mut CodeBuffer, op: ArithOp, rexw: bool, base: Reg, offset: i32, src: Reg)
    requires
        old(buf).has_room(enc_arith_mr(op, rexw, base, offset, src).len() as int),
    ensures
        final(buf).emitted(old(buf), enc_arith_mr(op, rexw, base, offset, src)),
{
    let mut v: Vec<u8> = Vec::new();
    put_arith_mr(&mut v, op, rexw, base, offset, src);
    assert(v@ =~= enc_arith_mr(op, rexw, base, offset, src));
    buf.emit_bytes(v.as_slice());
}

/// The bytes of `emit_arith_rm`.
pub open spec fn enc_arith_rm(op: ArithOp, rexw: bool, dst: Reg, base: Reg, offset: i32) -> Seq<u8> {
    enc_modrm_offset(arith_opc(OPC_ARITH_GVEV, op, rexw), dst, base, offset)
}

/// Append the bytes of `emit_arith_rm` to `v`.
pub fn put_arith_rm(v: &mut Vec<u8>, op: ArithOp, rexw: bool, dst: Reg, base: Reg, offset: i32)
    ensures
        final(v)@ == old(v)@ + enc_arith_rm(op, rexw, dst, base, offset),
{
    let ghost v0 = v@;
    push_modrm_offset(v, arith_opc_exec(OPC_ARITH_GVEV, op, rexw), dst, base, offset);
    assert(v@ =~= v0 + enc_arith_rm(op, rexw, dst, base, offset));
}

/// Arithmetic `op dst, [base + offset]` (load form).
pub fn emit_arith_rm(buf: &mut CodeBuffer, op: ArithOp, rexw: bool, dst: Reg, base: Reg, offset: i32)
    requires
        old(buf).has_room(enc_arith_rm(op, rexw, dst, base, offset).len() as int),
    ensures
        final(buf).emitted(old(buf), enc_arith_rm(op, rexw, dst, base, offset)),
{
    let mut v: Vec<u8> = Vec::new();
    put_arith_rm(&mut v, op, rexw, dst, base, offset);
    assert(v@ =~= enc_arith_rm(op, rexw, dst, base, offset));
    buf.emit_bytes(v.as_slice());
}

/// The bytes of `emit_neg`.
pub open spec fn enc_neg(rexw: bool, reg: Reg) -> Seq<u8> {
    enc_modrm_ext(OPC_GRP3_EV | wflag(rexw), Ext3Op::Neg.spec_code(), reg)
}

/// Append the bytes of `emit_neg` to `v`.
pub fn put_neg(v: &mut Vec<u8>, rexw: bool, reg: Reg)
    ensures
        final(v)@ == old(v)@ + enc_neg(rexw, reg),
{
    let ghost v0 = v@;
    push_modrm_ext(v, OPC_GRP3_EV | rexw_flag(rexw), Ext3Op::Neg.code(), reg);
    assert(v@ =~= v0 + enc_neg(rexw, reg));
}

/// NEG reg.
pub fn emit_neg(buf: &mut CodeBuffer, rexw: bool, reg: Reg)
    requires
        old(buf).has_room(enc_neg(rexw, reg).len() as int),
    ensures
        final(buf).emitted(old(buf), enc_neg(rexw, reg)),
{
    let mut v: Vec<u8> = Vec::new();
    put_neg(&mut v, rexw, reg);
    assert(v@ =~= enc_neg(rexw, reg));
    buf.emit_bytes(v.as_slice());
}

/// The bytes of `emit_not`.
pub open spec fn enc_not(rexw: bool, reg: Reg) -> Seq<u8> {
    enc_modrm_ext(OPC_GRP3_EV | wflag(rexw), Ext3Op::Not.spec_code(), reg)
}

/// Append the bytes of `emit_not` to `v`.
pub fn put_not(v: &mut Vec<u8>, rexw: bool, reg: Reg)
    ensures
        final(v)@ == old(v)@ + enc_not(rexw, reg),
{
    let ghost v0 = v@;
    push_modrm_ext(v, OPC_GRP3_EV | rexw_flag(rexw), Ext3Op::Not.code(), reg);
    assert(v@ =~= v0 + enc_not(rexw, reg));
}

/// NOT reg.
pub fn emit_not(buf: &mut CodeBuffer, rexw: bool, reg: Reg)
    requires
        old(buf).has_room(enc_not(rexw, reg).len() as int),
    ensures
        final(buf).emitted(old(buf), enc_not(rexw, reg)),
{
    let mut v: Vec<u8> = Vec::new();
    put_not(&mut v, rexw, reg);
    assert(v@ =~= enc_not(rexw, reg));
    buf.emit_bytes(v.as_slice());
}

/// The bytes of `emit_mul`.
pub open spec fn enc_mul(rexw: bool, reg: Reg) -> Seq<u8> {
    enc_modrm_ext(OPC_GRP3_EV | wflag(rexw), Ext3Op::Mul.spec_code(), reg)
}

/// Append the bytes of `emit_mul` to `v`.
pub fn put_mul(v: &mut Vec<u8>, rexw: bool, reg: Reg)
    ensures
        final(v)@ == old(v)@ + enc_mul(rexw, reg),
{
    let ghost v0 = v@;
    push_modrm_ext(v, OPC_GRP3_EV | rexw_flag(rexw), Ext3Op::Mul.code(), reg);
    assert(v@ =~= v0 + enc_mul(rexw, reg));
}

/// Unsigned MUL: RDX:RAX = RAX * reg.
pub fn emit_mul(buf: &mut CodeBuffer, rexw: bool, reg: Reg)
    requires
        old(buf).has_room(enc_mul(rexw, reg).len() as int),
    ensures
        final(buf).emitted(old(buf), enc_mul(rexw, reg)),
{
    let mut v: Vec<u8> = Vec::new();
    put_mul(&mut v, rexw, reg);
    assert(v@ =~= enc_mul(rexw, reg));
    buf.emit_bytes(v.as_slice());
}

/// The bytes of `emit_imul1`.
pub open spec fn enc_imul1(rexw: bool, reg: Reg) -> Seq<u8> {
    enc_modrm_ext(OPC_GRP3_EV | wflag(rexw), Ext3Op::Imul.spec_code(), reg)
}

/// Append the bytes of `emit_imul1` to `v`.
pub fn put_imul1(v: &mut Vec<u8>, rexw: bool, reg: Reg)
    ensures
        final(v)@ == old(v)@ + enc_imul1(rexw, reg),
{
    let ghost v0 = v@;
    push_modrm_ext(v, OPC_GRP3_EV | rexw_flag(rexw), Ext3Op::Imul.code(), reg);
    assert(v@ =~= v0 + enc_imul1(rexw, reg));
}

/// Signed one-operand IMUL: RDX:RAX = RAX * reg.
pub fn emit_imul1(buf: &mut CodeBuffer, rexw: bool, reg: Reg)
    requires
        old(buf).has_room(enc_imul1(rexw, reg).len() as int),
    ensures
        final(buf).emitted(old(buf), enc_imul1(rexw, reg)),
{
    let mut v: Vec<u8> = Vec::new();
    put_imul1(&mut v, rexw, reg);
    assert(v@ =~= enc_imul1(rexw, reg));
    buf.emit_bytes(v.as_slice());
}

/// The bytes of `emit_div`.
pub open spec fn enc_div(rexw: bool, reg: Reg) -> Seq<u8> {
    enc_modrm_ext(OPC_GRP3_EV | wflag(rexw), Ext3Op::Div.spec_code(), reg)
}

/// Append the bytes of `emit_div` to `v`.
pub fn put_div(v: &mut Vec<u8>, rexw: bool, reg: Reg)
    ensures
        final(v)@ == old(v)@ + enc_div(rexw, reg),
{
    let ghost v0 = v@;
    push_modrm_ext(v, OPC_GRP3_EV | rexw_flag(rexw), Ext3Op::Div.code(), reg);
    assert(v@ =~= v0 + enc_div(rexw, reg));
}

/// Unsigned DIV: RAX = RDX:RAX / reg, RDX = remainder.
pub fn emit_div(buf: &mut CodeBuffer, rexw: bool, reg: Reg)
    requires
        old(buf).has_room(enc_div(rexw, reg).len() as int),
    ensures
        final(buf).emitted(old(buf), enc_div(rexw, reg)),
{
    let mut v: Vec<u8> = Vec::new();
    put_div(&mut v, rexw, reg);
    assert(v@ =~= enc_div(rexw, reg));
    buf.emit_bytes(v.as_slice());
}

/// The bytes of `emit_idiv`.
pub open spec fn enc_idiv(rexw: bool, reg: Reg) -> Seq<u8> {
    enc_modrm_ext(OPC_GRP3_EV | wflag(rexw), Ext3Op::Idiv.spec_code(), reg)
}

/// Append the bytes of `emit_idiv` to `v`.
pub fn put_idiv(v: &mut Vec<u8>, rexw: bool, reg: Reg)
    ensures
        final(v)@ == old(v)@ + enc_idiv(rexw, reg),
{
    let ghost v0 = v@;
    push_modrm_ext(v, OPC_GRP3_EV | rexw_flag(rexw), Ext3Op::Idiv.code(), reg);
    assert(v@ =~= v0 + enc_idiv(rexw, reg));
}

/// Signed IDIV: RAX = RDX:RAX / reg, RDX = remainder.
pub fn emit_idiv(buf: &mut CodeBuffer, rexw: bool, reg: Reg)
    requires
        old(buf).has_room(enc_idiv(rexw, reg).len() as int),
    ensures
        final(buf).emitted(old(buf), enc_idiv(rexw, reg)),
{
    let mut v: Vec<u8> = Vec::new();
    put_idiv(&mut v, rexw, reg);
    assert(v@ =~= enc_idiv(rexw, reg));
    buf.emit_bytes(v.as_slice());
}

/// The bytes of `emit_shift_ri`.
pub open spec fn enc_shift_ri(op: ShiftOp, rexw: bool, dst: Reg, imm: u8) -> Seq<u8> {
    if imm == 1 {
        enc_modrm_ext(OPC_SHIFT_1 | wflag(rexw), op.spec_code(), dst)
    } else {
        enc_modrm_ext(OPC_SHIFT_IB | wflag(rexw), op.spec_code(), dst) + seq![imm]
    }
}

/// Append the bytes of `emit_shift_ri` to `v`.
pub fn put_shift_ri(v: &mut Vec<u8>, op: ShiftOp, rexw: bool, dst: Reg, imm: u8)
    ensures
        final(v)@ == old(v)@ + enc_shift_ri(op, rexw, dst, imm),
{
    let ghost v0 = v@;
    let w = rexw_flag(rexw);
    if imm == 1 {
        push_modrm_ext(v, OPC_SHIFT_1 | w, op.code(), dst);
    } else {
        push_modrm_ext(v, OPC_SHIFT_IB | w, op.code(), dst);
        v.push(imm);
    }
    assert(v@ =~= v0 + enc_shift_ri(op, rexw, dst, imm));
}

/// Shift `dst` by an immediate; a count of 1 uses the short form.
pub fn emit_shift_ri(buf: &mut CodeBuffer, op: ShiftOp, rexw: bool, dst: Reg, imm: u8)
    requires
        old(buf).has_room(enc_shift_ri(op, rexw, dst, imm).len() as int),
    ensures
        final(buf).emitted(old(buf), enc_shift_ri(op, rexw, dst, imm)),
{
    let mut v: Vec<u8> = Vec::new();
    put_shift_ri(&mut v, op, rexw, dst, imm);
    assert(v@ =~= enc_shift_ri(op, rexw, dst, imm));
    buf.emit_bytes(v.as_slice());
}

/// The bytes of `emit_shift_cl`.
pub open spec fn enc_shift_cl(op: ShiftOp, rexw: bool, dst: Reg) -> Seq<u8> {
    enc_modrm_ext(OPC_SHIFT_CL | wflag(rexw), op.spec_code(), dst)
}

/// Append the bytes of `emit_shift_cl` to `v`.
pub fn put_shift_cl(v: &mut Vec<u8>, op: ShiftOp, rexw: bool, dst: Reg)
    ensures
        final(v)@ == old(v)@ + enc_shift_cl(op, rexw, dst),
{
    let ghost v0 = v@;
    push_modrm_ext(v, OPC_SHIFT_CL | rexw_flag(rexw), op.code(), dst);
    assert(v@ =~= v0 + enc_shift_cl(op, rexw, dst));
}

/// Shift `dst` by CL.
pub fn emit_shift_cl(buf: &mut CodeBuffer, op: ShiftOp, rexw: bool, dst: Reg)
    requires
        old(buf).has_room(enc_shift_cl(op, rexw, dst).len() as int),
    ensures
        final(buf).emitted(old(buf), enc_shift_cl(op, rexw, dst)),
{
    let mut v: Vec<u8> = Vec::new();
    put_shift_cl(&mut v, op, rexw, dst);
    assert(v@ =~= enc_shift_cl(op, rexw, dst));
    buf.emit_bytes(v.as_slice());
}

/// The bytes of `emit_mov_rr`.
pub open spec fn enc_mov_rr(rexw: bool, dst: Reg, src: Reg) -> Seq<u8> {
    enc_modrm(OPC_MOVL_EVGV | wflag(rexw), src, dst)
}

/// Append the bytes of `emit_mov_rr` to `v`.
pub fn put_mov_rr(v: &mut Vec<u8>, rexw: bool, dst: Reg, src: Reg)
    ensures
        final(v)@ == old(v)@ + enc_mov_rr(rexw, dst, src),
{
    let ghost v0 = v@;
    push_modrm(v, OPC_MOVL_EVGV | rexw_flag(rexw), src, dst);
    assert(v@ =~= v0 + enc_mov_rr(rexw, dst, src));
}

/// MOV dst, src (32- or 64-bit).
pub fn emit_mov_rr(buf: &mut CodeBuffer, rexw: bool, dst: Reg, src: Reg)
    requires
        old(buf).has_room(enc_mov_rr(rexw, dst, src).len() as int),
    ensures
        final(buf).emitted(old(buf), enc_mov_rr(rexw, dst, src)),
{
    let mut v: Vec<u8> = Vec::new();
    put_mov_rr(&mut v, rexw, dst, src);
    assert(v@ =~= enc_mov_rr(rexw, dst, src));
    buf.emit_bytes(v.as_slice());
}

/// The bytes of `emit_mov_ri`.
pub open spec fn enc_mov_ri(rexw: bool, reg: Reg, val: u64) -> Seq<u8> {
    if val == 0 {
        enc_modrm(0x31, reg, reg)
    } else if !rexw || val <= u32::MAX {
        enc_opc((OPC_MOVL_IV + reg.spec_low3()) as u32, 0, reg.spec_num()) + le32(val as u32)
    } else if i32::MIN <= (val as i64) <= i32::MAX {
        enc_modrm_ext(OPC_MOVL_EVIZ | P_REXW, 0, reg) + le32(val as u32)
    } else {
        enc_opc(((OPC_MOVL_IV + reg.spec_low3()) as u32) | P_REXW, 0, reg.spec_num()) + le64(val)
    }
}

/// Append the bytes of `emit_mov_ri` to `v`.
pub fn put_mov_ri(v: &mut Vec<u8>, rexw: bool, reg: Reg, val: u64)
    ensures
        final(v)@ == old(v)@ + enc_mov_ri(rexw, reg, val),
{
    let ghost v0 = v@;
    if val == 0 {
        push_modrm(v, 0x31, reg, reg);
    } else if !rexw || val <= 0xffff_ffffu64 {
        push_opc(v, OPC_MOVL_IV + (reg.low3() as u32), 0, reg.num());
        push_u32(v, val as u32);
    } else if -0x8000_0000i64 <= (val as i64) && (val as i64) <= 0x7fff_ffffi64 {
        push_modrm_ext(v, OPC_MOVL_EVIZ | P_REXW, 0, reg);
        push_u32(v, val as u32);
    } else {
        push_opc(v, (OPC_MOVL_IV + (reg.low3() as u32)) | P_REXW, 0, reg.num());
        push_u64(v, val);
    }
    assert(v@ =~= v0 + enc_mov_ri(rexw, reg, val));
}

/// Load an immediate into `reg` with the shortest form: XOR for zero, the
/// zero-extending 32-bit MOV when the value fits, the sign-extended imm32
/// MOV, else the full 64-bit MOVABS.
pub fn emit_mov_ri(buf: &mut CodeBuffer, rexw: bool, reg: Reg, val: u64)
    requires
        old(buf).has_room(enc_mov_ri(rexw, reg, val).len() as int),
    ensures
        final(buf).emitted(old(buf), enc_mov_ri(rexw, reg, val)),
{
    let mut v: Vec<u8> = Vec::new();
    put_mov_ri(&mut v, rexw, reg, val);
    assert(v@ =~= enc_mov_ri(rexw, reg, val));
    buf.emit_bytes(v.as_slice());
}

/// The bytes of `emit_movzx`.
pub open spec fn enc_movzx(opc: u32, dst: Reg, src: Reg) -> Seq<u8> {
    enc_modrm(opc, dst, src)
}

/// Append the bytes of `emit_movzx` to `v`.
pub fn put_movzx(v: &mut Vec<u8>, opc: u32, dst: Reg, src: Reg)
    ensures
        final(v)@ == old(v)@ + enc_movzx(opc, dst, src),
{
    let ghost v0 = v@;
    push_modrm(v, opc, dst, src);
    assert(v@ =~= v0 + enc_movzx(opc, dst, src));
}

/// Zero-extend (MOVZBL/MOVZWL) `src` into `dst`.
pub fn emit_movzx(buf: &mut CodeBuffer, opc: u32, dst: Reg, src: Reg)
    requires
        old(buf).has_room(enc_movzx(opc, dst, src).len() as int),
    ensures
        final(buf).emitted(old(buf), enc_movzx(opc, dst, src)),
{
    let mut v: Vec<u8> = Vec::new();
    put_movzx(&mut v, opc, dst, src);
    assert(v@ =~= enc_movzx(opc, dst, src));
    buf.emit_bytes(v.as_slice());
}

/// The bytes of `emit_movsx`.
pub open spec fn enc_movsx(opc: u32, dst: Reg, src: Reg) -> Seq<u8> {
    enc_modrm(opc, dst, src)
}

/// Append the bytes of `emit_movsx` to `v`.
pub fn put_movsx(v: &mut Vec<u8>, opc: u32, dst: Reg, src: Reg)
    ensures
        final(v)@ == old(v)@ + enc_movsx(opc, dst, src),
{
    let ghost v0 = v@;
    push_modrm(v, opc, dst, src);
    assert(v@ =~= v0 + enc_movsx(opc, dst, src));
}

/// Sign-extend (MOVSBL/MOVSWL/MOVSLQ) `src` into `dst`.
pub fn emit_movsx(buf: &mut CodeBuffer, opc: u32, dst: Reg, src: Reg)
    requires
        old(buf).has_room(enc_movsx(opc, dst, src).len() as int),
    ensures
        final(buf).emitted(old(buf), enc_movsx(opc, dst, src)),
{
    let mut v: Vec<u8> = Vec::new();
    put_movsx(&mut v, opc, dst, src);
    assert(v@ =~= enc_movsx(opc, dst, src));
    buf.emit_bytes(v.as_slice());
}

/// The bytes of `emit_bswap`.
pub open spec fn enc_bswap(rexw: bool, reg: Reg) -> Seq<u8> {
    enc_opc(((OPC_BSWAP + reg.spec_low3()) as u32) | wflag(rexw), 0, reg.spec_num())
}

/// Append the bytes of `emit_bswap` to `v`.
pub fn put_bswap(v: &mut Vec<u8>, rexw: bool, reg: Reg)
    ensures
        final(v)@ == old(v)@ + enc_bswap(rexw, reg),
{
    let ghost v0 = v@;
    push_opc(v, (OPC_BSWAP + (reg.low3() as u32)) | rexw_flag(rexw), 0, reg.num());
    assert(v@ =~= v0 + enc_bswap(rexw, reg));
}

/// BSWAP reg; the register is encoded in the opcode byte.
pub fn emit_bswap(buf: &mut CodeBuffer, rexw: bool, reg: Reg)
    requires
        old(buf).has_room(enc_bswap(rexw, reg).len() as int),
    ensures
        final(buf).emitted(old(buf), enc_bswap(rexw, reg)),
{
    let mut v: Vec<u8> = Vec::new();
    put_bswap(&mut v, rexw, reg);
    assert(v@ =~= enc_bswap(rexw, reg));
    buf.emit_bytes(v.as_slice());
}

/// The bytes of `emit_load`.
pub open spec fn enc_load(rexw: bool, dst: Reg, base: Reg, offset: i32) -> Seq<u8> {
    enc_modrm_offset(OPC_MOVL_GVEV | wflag(rexw), dst, base, offset)
}

/// Append the bytes of `emit_load` to `v`.
pub fn put_load(v: &mut Vec<u8>, rexw: bool, dst: Reg, base: Reg, offset: i32)
    ensures
        final(v)@ == old(v)@ + enc_load(rexw, dst, base, offset),
{
    let ghost v0 = v@;
    push_modrm_offset(v, OPC_MOVL_GVEV | rexw_flag(rexw), dst, base, offset);
    assert(v@ =~= v0 + enc_load(rexw, dst, base, offset));
}

/// MOV dst, [base + offset].
pub fn emit_load(buf: &mut CodeBuffer, rexw: bool, dst: Reg, base: Reg, offset: i32)
    requires
        old(buf).has_room(enc_load(rexw, dst, base, offset).len() as int),
    ensures
        final(buf).emitted(old(buf), enc_load(rexw, dst, base, offset)),
{
    let mut v: Vec<u8> = Vec::new();
    put_load(&mut v, rexw, dst, base, offset);
    assert(v@ =~= enc_load(rexw, dst, base, offset));
    buf.emit_bytes(v.as_slice());
}

/// The bytes of `emit_store`.
pub open spec fn enc_store(rexw: bool, src: Reg, base: Reg, offset: i32) -> Seq<u8> {
    enc_modrm_offset(OPC_MOVL_EVGV | wflag(rexw), src, base, offset)
}

/// Append the bytes of `emit_store` to `v`.
pub fn put_store(v: &mut Vec<u8>, rexw: bool, src: Reg, base: Reg, offset: i32)
    ensures
        final(v)@ == old(v)@ + enc_store(rexw, src, base, offset),
{
    let ghost v0 = v@;
    push_modrm_offset(v, OPC_MOVL_EVGV | rexw_flag(rexw), src, base, offset);
    assert(v@ =~= v0 + enc_store(rexw, src, base, offset));
}

/// MOV [base + offset], src.
pub fn emit_store(buf: &mut CodeBuffer, rexw: bool, src: Reg, base: Reg, offset: i32)
    requires
        old(buf).has_room(enc_store(rexw, src, base, offset).len() as int),
    ensures
        final(buf).emitted(old(buf), enc_store(rexw, src, base, offset)),
{
    let mut v: Vec<u8> = Vec::new();
    put_store(&mut v, rexw, src, base, offset);
    assert(v@ =~= enc_store(rexw, src, base, offset));
    buf.emit_bytes(v.as_slice());
}

/// The bytes of `emit_store_byte`.
pub open spec fn enc_store_byte(src: Reg, base: Reg, offset: i32) -> Seq<u8> {
    enc_modrm_offset(OPC_MOVB_EVGV | P_REXB_R, src, base, offset)
}

/// Append the bytes of `emit_store_byte` to `v`.
pub fn put_store_byte(v: &mut Vec<u8>, src: Reg, base: Reg, offset: i32)
    ensures
        final(v)@ == old(v)@ + enc_store_byte(src, base, offset),
{
    let ghost v0 = v@;
    push_modrm_offset(v, OPC_MOVB_EVGV | P_REXB_R, src, base, offset);
    assert(v@ =~= v0 + enc_store_byte(src, base, offset));
}

/// MOV byte [base + offset], src.
pub fn emit_store_byte(buf: &mut CodeBuffer, src: Reg, base: Reg, offset: i32)
    requires
        old(buf).has_room(enc_store_byte(src, base, offset).len() as int),
    ensures
        final(buf).emitted(old(buf), enc_store_byte(src, base, offset)),
{
    let mut v: Vec<u8> = Vec::new();
    put_store_byte(&mut v, src, base, offset);
    assert(v@ =~= enc_store_byte(src, base, offset));
    buf.emit_bytes(v.as_slice());
}

/// The bytes of `emit_store_word`.
pub open spec fn enc_store_word(src: Reg, base: Reg, offset: i32) -> Seq<u8> {
    enc_modrm_offset(P_DATA16 | OPC_MOVL_EVGV, src, base, offset)
}

/// Append the bytes of `emit_store_word` to `v`.
pub fn put_store_word(v: &mut Vec<u8>, src: Reg, base: Reg, offset: i32)
    ensures
        final(v)@ == old(v)@ + enc_store_word(src, base, offset),
{
    let ghost v0 = v@;
    push_modrm_offset(v, P_DATA16 | OPC_MOVL_EVGV, src, base, offset);
    assert(v@ =~= v0 + enc_store_word(src, base, offset));
}

/// MOV word [base + offset], src.
pub fn emit_store_word(buf: &mut CodeBuffer, src: Reg, base: Reg, offset: i32)
    requires
        old(buf).has_room(enc_store_word(src, base, offset).len() as int),
    ensures
        final(buf).emitted(old(buf), enc_store_word(src, base, offset)),
{
    let mut v: Vec<u8> = Vec::new();
    put_store_word(&mut v, src, base, offset);
    assert(v@ =~= enc_store_word(src, base, offset));
    buf.emit_bytes(v.as_slice());
}

/// The bytes of `emit_store_imm`.
pub open spec fn enc_store_imm(rexw: bool, base: Reg, offset: i32, imm: i32) -> Seq<u8> {
    enc_modrm_ext_offset(OPC_MOVL_EVIZ | wflag(rexw), 0, base, offset) + le32(imm as u32)
}

/// Append the bytes of `emit_store_imm` to `v`.
pub fn put_store_imm(v: &mut Vec<u8>, rexw: bool, base: Reg, offset: i32, imm: i32)
    ensures
        final(v)@ == old(v)@ + enc_store_imm(rexw, base, offset, imm),
{
    let ghost v0 = v@;
    push_modrm_ext_offset(v, OPC_MOVL_EVIZ | rexw_flag(rexw), 0, base, offset);
    push_u32(v, imm as u32);
    assert(v@ =~= v0 + enc_store_imm(rexw, base, offset, imm));
}

/// MOV [base + offset], imm32.
pub fn emit_store_imm(buf: &mut CodeBuffer, rexw: bool, base: Reg, offset: i32, imm: i32)
    requires
        old(buf).has_room(enc_store_imm(rexw, base, offset, imm).len() as int),
    ensures
        final(buf).emitted(old(buf), enc_store_imm(rexw, base, offset, imm)),
{
    let mut v: Vec<u8> = Vec::new();
    put_store_imm(&mut v, rexw, base, offset, imm);
    assert(v@ =~= enc_store_imm(rexw, base, offset, imm));
    buf.emit_bytes(v.as_slice());
}

/// The bytes of `emit_lea`.
pub open spec fn enc_lea(rexw: bool, dst: Reg, base: Reg, offset: i32) -> Seq<u8> {
    enc_modrm_offset(OPC_LEA | wflag(rexw), dst, base, offset)
}

/// Append the bytes of `emit_lea` to `v`.
pub fn put_lea(v: &mut Vec<u8>, rexw: bool, dst: Reg, base: Reg, offset: i32)
    ensures
        final(v)@ == old(v)@ + enc_lea(rexw, dst, base, offset),
{
    let ghost v0 = v@;
    push_modrm_offset(v, OPC_LEA | rexw_flag(rexw), dst, base, offset);
    assert(v@ =~= v0 + enc_lea(rexw, dst, base, offset));
}

/// LEA dst, [base + offset].
pub fn emit_lea(buf: &mut CodeBuffer, rexw: bool, dst: Reg, base: Reg, offset: i32)
    requires
        old(buf).has_room(enc_lea(rexw, dst, base, offset).len() as int),
    ensures
        final(buf).emitted(old(buf), enc_lea(rexw, dst, base, offset)),
{
    let mut v: Vec<u8> = Vec::new();
    put_lea(&mut v, rexw, dst, base, offset);
    assert(v@ =~= enc_lea(rexw, dst, base, offset));
    buf.emit_bytes(v.as_slice());
}

/// The bytes of `emit_lea_sib`.
pub open spec fn enc_lea_sib(rexw: bool, dst: Reg, base: Reg, index: Reg, shift: u8, offset: i32) -> Seq<u8> {
    enc_modrm_sib(OPC_LEA | wflag(rexw), dst, base, index, shift, offset)
}

/// Append the bytes of `emit_lea_sib` to `v`.
pub fn put_lea_sib(v: &mut Vec<u8>, rexw: bool, dst: Reg, base: Reg, index: Reg, shift: u8, offset: i32)
    ensures
        final(v)@ == old(v)@ + enc_lea_sib(rexw, dst, base, index, shift, offset),
{
    let ghost v0 = v@;
    push_modrm_sib(v, OPC_LEA | rexw_flag(rexw), dst, base, index, shift, offset);
    assert(v@ =~= v0 + enc_lea_sib(rexw, dst, base, index, shift, offset));
}

/// LEA dst, [base + index * 2^shift + offset].
pub fn emit_lea_sib(buf: &mut CodeBuffer, rexw: bool, dst: Reg, base: Reg, index: Reg, shift: u8, offset: i32)
    requires
        index != Reg::Rsp,
        shift <= 3,
        old(buf).has_room(enc_lea_sib(rexw, dst, base, index, shift, offset).len() as int),
    ensures
        final(buf).emitted(old(buf), enc_lea_sib(rexw, dst, base, index, shift, offset)),
{
    let mut v: Vec<u8> = Vec::new();
    put_lea_sib(&mut v, rexw, dst, base, index, shift, offset);
    assert(v@ =~= enc_lea_sib(rexw, dst, base, index, shift, offset));
    buf.emit_bytes(v.as_slice());
}

/// The bytes of `emit_load_sib`.
pub open spec fn enc_load_sib(rexw: bool, dst: Reg, base: Reg, index: Reg, shift: u8, offset: i32) -> Seq<u8> {
    enc_modrm_sib(OPC_MOVL_GVEV | wflag(rexw), dst, base, index, shift, offset)
}

/// Append the bytes of `emit_load_sib` to `v`.
pub fn put_load_sib(v: &mut Vec<u8>, rexw: bool, dst: Reg, base: Reg, index: Reg, shift: u8, offset: i32)
    ensures
        final(v)@ == old(v)@ + enc_load_sib(rexw, dst, base, index, shift, offset),
{
    let ghost v0 = v@;
    push_modrm_sib(v, OPC_MOVL_GVEV | rexw_flag(rexw), dst, base, index, shift, offset);
    assert(v@ =~= v0 + enc_load_sib(rexw, dst, base, index, shift, offset));
}

/// MOV dst, [base + index * 2^shift + offset].
pub fn emit_load_sib(buf: &mut CodeBuffer, rexw: bool, dst: Reg, base: Reg, index: Reg, shift: u8, offset: i32)
    requires
        index != Reg::Rsp,
        shift <= 3,
        old(buf).has_room(enc_load_sib(rexw, dst, base, index, shift, offset).len() as int),
    ensures
        final(buf).emitted(old(buf), enc_load_sib(rexw, dst, base, index, shift, offset)),
{
    let mut v: Vec<u8> = Vec::new();
    put_load_sib(&mut v, rexw, dst, base, index, shift, offset);
    assert(v@ =~= enc_load_sib(rexw, dst, base, index, shift, offset));
    buf.emit_bytes(v.as_slice());
}

/// The bytes of `emit_store_sib`.
pub open spec fn enc_store_sib(rexw: bool, src: Reg, base: Reg, index: Reg, shift: u8, offset: i32) -> Seq<u8> {
    enc_modrm_sib(OPC_MOVL_EVGV | wflag(rexw), src, base, index, shift, offset)
}

/// Append the bytes of `emit_store_sib` to `v`.
pub fn put_store_sib(v: &mut Vec<u8>, rexw: bool, src: Reg, base: Reg, index: Reg, shift: u8, offset: i32)
    ensures
        final(v)@ == old(v)@ + enc_store_sib(rexw, src, base, index, shift, offset),
{
    let ghost v0 = v@;
    push_modrm_sib(v, OPC_MOVL_EVGV | rexw_flag(rexw), src, base, index, shift, offset);
    assert(v@ =~= v0 + enc_store_sib(rexw, src, base, index, shift, offset));
}

/// MOV [base + index * 2^shift + offset], src.
pub fn emit_store_sib(buf: &mut CodeBuffer, rexw: bool, src: Reg, base: Reg, index: Reg, shift: u8, offset: i32)
    requires
        index != Reg::Rsp,
        shift <= 3,
        old(buf).has_room(enc_store_sib(rexw, src, base, index, shift, offset).len() as int),
    ensures
        final(buf).emitted(old(buf), enc_store_sib(rexw, src, base, index, shift, offset)),
{
    let mut v: Vec<u8> = Vec::new();
    put_store_sib(&mut v, rexw, src, base, index, shift, offset);
    assert(v@ =~= enc_store_sib(rexw, src, base, index, shift, offset));
    buf.emit_bytes(v.as_slice());
}

/// The bytes of `emit_load_zx`.
pub open spec fn enc_load_zx(opc: u32, dst: Reg, base: Reg, offset: i32) -> Seq<u8> {
    enc_modrm_offset(opc, dst, base, offset)
}

/// Append the bytes of `emit_load_zx` to `v`.
pub fn put_load_zx(v: &mut Vec<u8>, opc: u32, dst: Reg, base: Reg, offset: i32)
    ensures
        final(v)@ == old(v)@ + enc_load_zx(opc, dst, base, offset),
{
    let ghost v0 = v@;
    push_modrm_offset(v, opc, dst, base, offset);
    assert(v@ =~= v0 + enc_load_zx(opc, dst, base, offset));
}

/// Zero-extending load MOVZBL/MOVZWL dst, [base + offset].
pub fn emit_load_zx(buf: &mut CodeBuffer, opc: u32, dst: Reg, base: Reg, offset: i32)
    requires
        old(buf).has_room(enc_load_zx(opc, dst, base, offset).len() as int),
    ensures
        final(buf).emitted(old(buf), enc_load_zx(opc, dst, base, offset)),
{
    let mut v: Vec<u8> = Vec::new();
    put_load_zx(&mut v, opc, dst, base, offset);
    assert(v@ =~= enc_load_zx(opc, dst, base, offset));
    buf.emit_bytes(v.as_slice());
}

/// The bytes of `emit_load_sx`.
pub open spec fn enc_load_sx(opc: u32, dst: Reg, base: Reg, offset: i32) -> Seq<u8> {
    enc_modrm_offset(opc, dst, base, offset)
}

/// Append the bytes of `emit_load_sx` to `v`.
pub fn put_load_sx(v: &mut Vec<u8>, opc: u32, dst: Reg, base: Reg, offset: i32)
    ensures
        final(v)@ == old(v)@ + enc_load_sx(opc, dst, base, offset),
{
    let ghost v0 = v@;
    push_modrm_offset(v, opc, dst, base, offset);
    assert(v@ =~= v0 + enc_load_sx(opc, dst, base, offset));
}

/// Sign-extending load MOVSBL/MOVSWL/MOVSLQ dst, [base + offset].
pub fn emit_load_sx(buf: &mut CodeBuffer, opc: u32, dst: Reg, base: Reg, offset: i32)
    requires
        old(buf).has_room(enc_load_sx(opc, dst, base, offset).len() as int),
    ensures
        final(buf).emitted(old(buf), enc_load_sx(opc, dst, base, offset)),
{
    let mut v: Vec<u8> = Vec::new();
    put_load_sx(&mut v, opc, dst, base, offset);
    assert(v@ =~= enc_load_sx(opc, dst, base, offset));
    buf.emit_bytes(v.as_slice());
}

/// The bytes of `emit_load_zx_sib`.
pub open spec fn enc_load_zx_sib(opc: u32, dst: Reg, base: Reg, index: Reg) -> Seq<u8> {
    enc_modrm_sib(opc, dst, base, index, 0, 0)
}

/// Append the bytes of `emit_load_zx_sib` to `v`.
pub fn put_load_zx_sib(v: &mut Vec<u8>, opc: u32, dst: Reg, base: Reg, index: Reg)
    ensures
        final(v)@ == old(v)@ + enc_load_zx_sib(opc, dst, base, index),
{
    let ghost v0 = v@;
    push_modrm_sib(v, opc, dst, base, index, 0, 0);
    assert(v@ =~= v0 + enc_load_zx_sib(opc, dst, base, index));
}

/// Zero-extending load dst, [base + index].
pub fn emit_load_zx_sib(buf: &mut CodeBuffer, opc: u32, dst: Reg, base: Reg, index: Reg)
    requires
        index != Reg::Rsp,
        old(buf).has_room(enc_load_zx_sib(opc, dst, base, index).len() as int),
    ensures
        final(buf).emitted(old(buf), enc_load_zx_sib(opc, dst, base, index)),
{
    let mut v: Vec<u8> = Vec::new();
    put_load_zx_sib(&mut v, opc, dst, base, index);
    assert(v@ =~= enc_load_zx_sib(opc, dst, base, index));
    buf.emit_bytes(v.as_slice());
}

/// The bytes of `emit_load_sx_sib`.
pub open spec fn enc_load_sx_sib(opc: u32, dst: Reg, base: Reg, index: Reg) -> Seq<u8> {
    enc_modrm_sib(opc, dst, base, index, 0, 0)
}

/// Append the bytes of `emit_load_sx_sib` to `v`.
pub fn put_load_sx_sib(v: &mut Vec<u8>, opc: u32, dst: Reg, base: Reg, index: Reg)
    ensures
        final(v)@ == old(v)@ + enc_load_sx_sib(opc, dst, base, index),
{
    let ghost v0 = v@;
    push_modrm_sib(v, opc, dst, base, index, 0, 0);
    assert(v@ =~= v0 + enc_load_sx_sib(opc, dst, base, index));
}

/// Sign-extending load dst, [base + index].
pub fn emit_load_sx_sib(buf: &mut CodeBuffer, opc: u32, dst: Reg, base: Reg, index: Reg)
    requires
        index != Reg::Rsp,
        old(buf).has_room(enc_load_sx_sib(opc, dst, base, index).len() as int),
    ensures
        final(buf).emitted(old(buf), enc_load_sx_sib(opc, dst, base, index)),
{
    let mut v: Vec<u8> = Vec::new();
    put_load_sx_sib(&mut v, opc, dst, base, index);
    assert(v@ =~= enc_load_sx_sib(opc, dst, base, index));
    buf.emit_bytes(v.as_slice());
}

/// The bytes of `emit_store_byte_sib`.
pub open spec fn enc_store_byte_sib(src: Reg, base: Reg, index: Reg) -> Seq<u8> {
    enc_modrm_sib(OPC_MOVB_EVGV | P_REXB_R, src, base, index, 0, 0)
}

/// Append the bytes of `emit_store_byte_sib` to `v`.
pub fn put_store_byte_sib(v: &mut Vec<u8>, src: Reg, base: Reg, index: Reg)
    ensures
        final(v)@ == old(v)@ + enc_store_byte_sib(src, base, index),
{
    let ghost v0 = v@;
    push_modrm_sib(v, OPC_MOVB_EVGV | P_REXB_R, src, base, index, 0, 0);
    assert(v@ =~= v0 + enc_store_byte_sib(src, base, index));
}

/// MOV byte [base + index], src.
pub fn emit_store_byte_sib(buf: &mut CodeBuffer, src: Reg, base: Reg, index: Reg)
    requires
        index != Reg::Rsp,
        old(buf).has_room(enc_store_byte_sib(src, base, index).len() as int),
    ensures
        final(buf).emitted(old(buf), enc_store_byte_sib(src, base, index)),
{
    let mut v: Vec<u8> = Vec::new();
    put_store_byte_sib(&mut v, src, base, index);
    assert(v@ =~= enc_store_byte_sib(src, base, index));
    buf.emit_bytes(v.as_slice());
}

/// The bytes of `emit_store_word_sib`.
pub open spec fn enc_store_word_sib(src: Reg, base: Reg, index: Reg) -> Seq<u8> {
    enc_modrm_sib(P_DATA16 | OPC_MOVL_EVGV, src, base, index, 0, 0)
}

/// Append the bytes of `emit_store_word_sib` to `v`.
pub fn put_store_word_sib(v: &mut Vec<u8>, src: Reg, base: Reg, index: Reg)
    ensures
        final(v)@ == old(v)@ + enc_store_word_sib(src, base, index),
{
    let ghost v0 = v@;
    push_modrm_sib(v, P_DATA16 | OPC_MOVL_EVGV, src, base, index, 0, 0);
    assert(v@ =~= v0 + enc_store_word_sib(src, base, index));
}

/// MOV word [base + index], src.
pub fn emit_store_word_sib(buf: &mut CodeBuffer, src: Reg, base: Reg, index: Reg)
    requires
        index != Reg::Rsp,
        old(buf).has_room(enc_store_word_sib(src, base, index).len() as int),
    ensures
        final(buf).emitted(old(buf), enc_store_word_sib(src, base, index)),
{
    let mut v: Vec<u8> = Vec::new();
    put_store_word_sib(&mut v, src, base, index);
    assert(v@ =~= enc_store_word_sib(src, base, index));
    buf.emit_bytes(v.as_slice());
}

/// The bytes of `emit_imul_rr`.
pub open spec fn enc_imul_rr(rexw: bool, dst: Reg, src: Reg) -> Seq<u8> {
    enc_modrm(OPC_IMUL_GVEV | wflag(rexw), dst, src)
}

/// Append the bytes of `emit_imul_rr` to `v`.
pub fn put_imul_rr(v: &mut Vec<u8>, rexw: bool, dst: Reg, src: Reg)
    ensures
        final(v)@ == old(v)@ + enc_imul_rr(rexw, dst, src),
{
    let ghost v0 = v@;
    push_modrm(v, OPC_IMUL_GVEV | rexw_flag(rexw), dst, src);
    assert(v@ =~= v0 + enc_imul_rr(rexw, dst, src));
}

/// Two-operand IMUL dst, src.
pub fn emit_imul_rr(buf: &mut CodeBuffer, rexw: bool, dst: Reg, src: Reg)
    requires
        old(buf).has_room(enc_imul_rr(rexw, dst, src).len() as int),
    ensures
        final(buf).emitted(old(buf), enc_imul_rr(rexw, dst, src)),
{
    let mut v: Vec<u8> = Vec::new();
    put_imul_rr(&mut v, rexw, dst, src);
    assert(v@ =~= enc_imul_rr(rexw, dst, src));
    buf.emit_bytes(v.as_slice());
}

/// The bytes of `emit_imul_ri`.
pub open spec fn enc_imul_ri(rexw: bool, dst: Reg, src: Reg, imm: i32) -> Seq<u8> {
    if -128 <= imm <= 127 {
        enc_modrm(OPC_IMUL_GVEVIB | wflag(rexw), dst, src) + seq![imm as u8]
    } else {
        enc_modrm(OPC_IMUL_GVEVIZ | wflag(rexw), dst, src) + le32(imm as u32)
    }
}

/// Append the bytes of `emit_imul_ri` to `v`.
pub fn put_imul_ri(v: &mut Vec<u8>, rexw: bool, dst: Reg, src: Reg, imm: i32)
    ensures
        final(v)@ == old(v)@ + enc_imul_ri(rexw, dst, src, imm),
{
    let ghost v0 = v@;
    let w = rexw_flag(rexw);
    if -128 <= imm && imm <= 127 {
        push_modrm(v, OPC_IMUL_GVEVIB | w, dst, src);
        v.push(imm as u8);
    } else {
        push_modrm(v, OPC_IMUL_GVEVIZ | w, dst, src);
        push_u32(v, imm as u32);
    }
    assert(v@ =~= v0 + enc_imul_ri(rexw, dst, src, imm));
}

/// Three-operand IMUL dst, src, imm (imm8 form when it fits a byte).
pub fn emit_imul_ri(buf: &mut CodeBuffer, rexw: bool, dst: Reg, src: Reg, imm: i32)
    requires
        old(buf).has_room(enc_imul_ri(rexw, dst, src, imm).len() as int),
    ensures
        final(buf).emitted(old(buf), enc_imul_ri(rexw, dst, src, imm)),
{
    let mut v: Vec<u8> = Vec::new();
    put_imul_ri(&mut v, rexw, dst, src, imm);
    assert(v@ =~= enc_imul_ri(rexw, dst, src, imm));
    buf.emit_bytes(v.as_slice());
}

/// The bytes of `emit_bsf`.
pub open spec fn enc_bsf(rexw: bool, dst: Reg, src: Reg) -> Seq<u8> {
    enc_modrm(OPC_BSF | wflag(rexw), dst, src)
}

/// Append the bytes of `emit_bsf` to `v`.
pub fn put_bsf(v: &mut Vec<u8>, rexw: bool, dst: Reg, src: Reg)
    ensures
        final(v)@ == old(v)@ + enc_bsf(rexw, dst, src),
{
    let ghost v0 = v@;
    push_modrm(v, OPC_BSF | rexw_flag(rexw), dst, src);
    assert(v@ =~= v0 + enc_bsf(rexw, dst, src));
}

/// BSF dst, src.
pub fn emit_bsf(buf: &mut CodeBuffer, rexw: bool, dst: Reg, src: Reg)
    requires
        old(buf).has_room(enc_bsf(rexw, dst, src).len() as int),
    ensures
        final(buf).emitted(old(buf), enc_bsf(rexw, dst, src)),
{
    let mut v: Vec<u8> = Vec::new();
    put_bsf(&mut v, rexw, dst, src);
    assert(v@ =~= enc_bsf(rexw, dst, src));
    buf.emit_bytes(v.as_slice());
}

/// The bytes of `emit_bsr`.
pub open spec fn enc_bsr(rexw: bool, dst: Reg, src: Reg) -> Seq<u8> {
    enc_modrm(OPC_BSR | wflag(rexw), dst, src)
}

/// Append the bytes of `emit_bsr` to `v`.
pub fn put_bsr(v: &mut Vec<u8>, rexw: bool, dst: Reg, src: Reg)
    ensures
        final(v)@ == old(v)@ + enc_bsr(rexw, dst, src),
{
    let ghost v0 = v@;
    push_modrm(v, OPC_BSR | rexw_flag(rexw), dst, src);
    assert(v@ =~= v0 + enc_bsr(rexw, dst, src));
}

/// BSR dst, src.
pub fn emit_bsr(buf: &mut CodeBuffer, rexw: bool, dst: Reg, src: Reg)
    requires
        old(buf).has_room(enc_bsr(rexw, dst, src).len() as int),
    ensures
        final(buf).emitted(old(buf), enc_bsr(rexw, dst, src)),
{
    let mut v: Vec<u8> = Vec::new();
    put_bsr(&mut v, rexw, dst, src);
    assert(v@ =~= enc_bsr(rexw, dst, src));
    buf.emit_bytes(v.as_slice());
}

/// The bytes of `emit_lzcnt`.
pub open spec fn enc_lzcnt(rexw: bool, dst: Reg, src: Reg) -> Seq<u8> {
    enc_modrm(OPC_LZCNT | wflag(rexw), dst, src)
}

/// Append the bytes of `emit_lzcnt` to `v`.
pub fn put_lzcnt(v: &mut Vec<u8>, rexw: bool, dst: Reg, src: Reg)
    ensures
        final(v)@ == old(v)@ + enc_lzcnt(rexw, dst, src),
{
    let ghost v0 = v@;
    push_modrm(v, OPC_LZCNT | rexw_flag(rexw), dst, src);
    assert(v@ =~= v0 + enc_lzcnt(rexw, dst, src));
}

/// LZCNT dst, src.
pub fn emit_lzcnt(buf: &mut CodeBuffer, rexw: bool, dst: Reg, src: Reg)
    requires
        old(buf).has_room(enc_lzcnt(rexw, dst, src).len() as int),
    ensures
        final(buf).emitted(old(buf), enc_lzcnt(rexw, dst, src)),
{
    let mut v: Vec<u8> = Vec::new();
    put_lzcnt(&mut v, rexw, dst, src);
    assert(v@ =~= enc_lzcnt(rexw, dst, src));
    buf.emit_bytes(v.as_slice());
}

/// The bytes of `emit_tzcnt`.
pub open spec fn enc_tzcnt(rexw: bool, dst: Reg, src: Reg) -> Seq<u8> {
    enc_modrm(OPC_TZCNT | wflag(rexw), dst, src)
}

/// Append the bytes of `emit_tzcnt` to `v`.
pub fn put_tzcnt(v: &mut Vec<u8>, rexw: bool, dst: Reg, src: Reg)
    ensures
        final(v)@ == old(v)@ + enc_tzcnt(rexw, dst, src),
{
    let ghost v0 = v@;
    push_modrm(v, OPC_TZCNT | rexw_flag(rexw), dst, src);
    assert(v@ =~= v0 + enc_tzcnt(rexw, dst, src));
}

/// TZCNT dst, src.
pub fn emit_tzcnt(buf: &mut CodeBuffer, rexw: bool, dst: Reg, src: Reg)
    requires
        old(buf).has_room(enc_tzcnt(rexw, dst, src).len() as int),
    ensures
        final(buf).emitted(old(buf), enc_tzcnt(rexw, dst, src)),
{
    let mut v: Vec<u8> = Vec::new();
    put_tzcnt(&mut v, rexw, dst, src);
    assert(v@ =~= enc_tzcnt(rexw, dst, src));
    buf.emit_bytes(v.as_slice());
}

/// The bytes of `emit_popcnt`.
pub open spec fn enc_popcnt(rexw: bool, dst: Reg, src: Reg) -> Seq<u8> {
    enc_modrm(OPC_POPCNT | wflag(rexw), dst, src)
}

/// Append the bytes of `emit_popcnt` to `v`.
pub fn put_popcnt(v: &mut Vec<u8>, rexw: bool, dst: Reg, src: Reg)
    ensures
        final(v)@ == old(v)@ + enc_popcnt(rexw, dst, src),
{
    let ghost v0 = v@;
    push_modrm(v, OPC_POPCNT | rexw_flag(rexw), dst, src);
    assert(v@ =~= v0 + enc_popcnt(rexw, dst, src));
}

/// POPCNT dst, src.
pub fn emit_popcnt(buf: &mut CodeBuffer, rexw: bool, dst: Reg, src: Reg)
    requires
        old(buf).has_room(enc_popcnt(rexw, dst, src).len() as int),
    ensures
        final(buf).emitted(old(buf), enc_popcnt(rexw, dst, src)),
{
    let mut v: Vec<u8> = Vec::new();
    put_popcnt(&mut v, rexw, dst, src);
    assert(v@ =~= enc_popcnt(rexw, dst, src));
    buf.emit_bytes(v.as_slice());
}

/// The bytes of `emit_bt_ri`.
pub open spec fn enc_bt_ri(rexw: bool, reg: Reg, bit: u8) -> Seq<u8> {
    enc_modrm_ext(OPC_GRPBT | wflag(rexw), GrpBtOp::Bt.spec_code(), reg) + seq![bit]
}

/// Append the bytes of `emit_bt_ri` to `v`.
pub fn put_bt_ri(v: &mut Vec<u8>, rexw: bool, reg: Reg, bit: u8)
    ensures
        final(v)@ == old(v)@ + enc_bt_ri(rexw, reg, bit),
{
    let ghost v0 = v@;
    push_modrm_ext(v, OPC_GRPBT | rexw_flag(rexw), GrpBtOp::Bt.code(), reg);
    v.push(bit);
    assert(v@ =~= v0 + enc_bt_ri(rexw, reg, bit));
}

/// BT reg, imm8.
pub fn emit_bt_ri(buf: &mut CodeBuffer, rexw: bool, reg: Reg, bit: u8)
    requires
        old(buf).has_room(enc_bt_ri(rexw, reg, bit).len() as int),
    ensures
        final(buf).emitted(old(buf), enc_bt_ri(rexw, reg, bit)),
{
    let mut v: Vec<u8> = Vec::new();
    put_bt_ri(&mut v, rexw, reg, bit);
    assert(v@ =~= enc_bt_ri(rexw, reg, bit));
    buf.emit_bytes(v.as_slice());
}

/// The bytes of `emit_bts_ri`.
pub open spec fn enc_bts_ri(rexw: bool, reg: Reg, bit: u8) -> Seq<u8> {
    enc_modrm_ext(OPC_GRPBT | wflag(rexw), GrpBtOp::Bts.spec_code(), reg) + seq![bit]
}

/// Append the bytes of `emit_bts_ri` to `v`.
pub fn put_bts_ri(v: &mut Vec<u8>, rexw: bool, reg: Reg, bit: u8)
    ensures
        final(v)@ == old(v)@ + enc_bts_ri(rexw, reg, bit),
{
    let ghost v0 = v@;
    push_modrm_ext(v, OPC_GRPBT | rexw_flag(rexw), GrpBtOp::Bts.code(), reg);
    v.push(bit);
    assert(v@ =~= v0 + enc_bts_ri(rexw, reg, bit));
}

/// BTS reg, imm8.
pub fn emit_bts_ri(buf: &mut CodeBuffer, rexw: bool, reg: Reg, bit: u8)
    requires
        old(buf).has_room(enc_bts_ri(rexw, reg, bit).len() as int),
    ensures
        final(buf).emitted(old(buf), enc_bts_ri(rexw, reg, bit)),
{
    let mut v: Vec<u8> = Vec::new();
    put_bts_ri(&mut v, rexw, reg, bit);
    assert(v@ =~= enc_bts_ri(rexw, reg, bit));
    buf.emit_bytes(v.as_slice());
}

/// The bytes of `emit_btr_ri`.
pub open spec fn enc_btr_ri(rexw: bool, reg: Reg, bit: u8) -> Seq<u8> {
    enc_modrm_ext(OPC_GRPBT | wflag(rexw), GrpBtOp::Btr.spec_code(), reg) + seq![bit]
}

/// Append the bytes of `emit_btr_ri` to `v`.
pub fn put_btr_ri(v: &mut Vec<u8>, rexw: bool, reg: Reg, bit: u8)
    ensures
        final(v)@ == old(v)@ + enc_btr_ri(rexw, reg, bit),
{
    let ghost v0 = v@;
    push_modrm_ext(v, OPC_GRPBT | rexw_flag(rexw), GrpBtOp::Btr.code(), reg);
    v.push(bit);
    assert(v@ =~= v0 + enc_btr_ri(rexw, reg, bit));
}

/// BTR reg, imm8.
pub fn emit_btr_ri(buf: &mut CodeBuffer, rexw: bool, reg: Reg, bit: u8)
    requires
        old(buf).has_room(enc_btr_ri(rexw, reg, bit).len() as int),
    ensures
        final(buf).emitted(old(buf), enc_btr_ri(rexw, reg, bit)),
{
    let mut v: Vec<u8> = Vec::new();
    put_btr_ri(&mut v, rexw, reg, bit);
    assert(v@ =~= enc_btr_ri(rexw, reg, bit));
    buf.emit_bytes(v.as_slice());
}

/// The bytes of `emit_btc_ri`.
pub open spec fn enc_btc_ri(rexw: bool, reg: Reg, bit: u8) -> Seq<u8> {
    enc_modrm_ext(OPC_GRPBT | wflag(rexw), GrpBtOp::Btc.spec_code(), reg) + seq![bit]
}

/// Append the bytes of `emit_btc_ri` to `v`.
pub fn put_btc_ri(v: &mut Vec<u8>, rexw: bool, reg: Reg, bit: u8)
    ensures
        final(v)@ == old(v)@ + enc_btc_ri(rexw, reg, bit),
{
    let ghost v0 = v@;
    push_modrm_ext(v, OPC_GRPBT | rexw_flag(rexw), GrpBtOp::Btc.code(), reg);
    v.push(bit);
    assert(v@ =~= v0 + enc_btc_ri(rexw, reg, bit));
}

/// BTC reg, imm8.
pub fn emit_btc_ri(buf: &mut CodeBuffer, rexw: bool, reg: Reg, bit: u8)
    requires
        old(buf).has_room(enc_btc_ri(rexw, reg, bit).len() as int),
    ensures
        final(buf).emitted(old(buf), enc_btc_ri(rexw, reg, bit)),
{
    let mut v: Vec<u8> = Vec::new();
    put_btc_ri(&mut v, rexw, reg, bit);
    assert(v@ =~= enc_btc_ri(rexw, reg, bit));
    buf.emit_bytes(v.as_slice());
}

/// The bytes of `emit_andn`.
pub open spec fn enc_andn(rexw: bool, dst: Reg, src1: Reg, src2: Reg) -> Seq<u8> {
    enc_vex_modrm(OPC_ANDN | wflag(rexw), dst, src1, src2)
}

/// Append the bytes of `emit_andn` to `v`.
pub fn put_andn(v: &mut Vec<u8>, rexw: bool, dst: Reg, src1: Reg, src2: Reg)
    ensures
        final(v)@ == old(v)@ + enc_andn(rexw, dst, src1, src2),
{
    let ghost v0 = v@;
    push_vex_modrm(v, OPC_ANDN | rexw_flag(rexw), dst, src1, src2);
    assert(v@ =~= v0 + enc_andn(rexw, dst, src1, src2));
}

/// ANDN dst, src1, src2 (dst = !src1 & src2), VEX-encoded.
pub fn emit_andn(buf: &mut CodeBuffer, rexw: bool, dst: Reg, src1: Reg, src2: Reg)
    requires
        old(buf).has_room(enc_andn(rexw, dst, src1, src2).len() as int),
    ensures
        final(buf).emitted(old(buf), enc_andn(rexw, dst, src1, src2)),
{
    let mut v: Vec<u8> = Vec::new();
    put_andn(&mut v, rexw, dst, src1, src2);
    assert(v@ =~= enc_andn(rexw, dst, src1, src2));
    buf.emit_bytes(v.as_slice());
}

/// The bytes of `emit_jmp_reg`.
pub open spec fn enc_jmp_reg(reg: Reg) -> Seq<u8> {
    enc_modrm_ext(OPC_GRP5, Ext5Op::JmpN.spec_code(), reg)
}

/// Append the bytes of `emit_jmp_reg` to `v`.
pub fn put_jmp_reg(v: &mut Vec<u8>, reg: Reg)
    ensures
        final(v)@ == old(v)@ + enc_jmp_reg(reg),
{
    let ghost v0 = v@;
    push_modrm_ext(v, OPC_GRP5, Ext5Op::JmpN.code(), reg);
    assert(v@ =~= v0 + enc_jmp_reg(reg));
}

/// Indirect JMP through `reg`.
pub fn emit_jmp_reg(buf: &mut CodeBuffer, reg: Reg)
    requires
        old(buf).has_room(enc_jmp_reg(reg).len() as int),
    ensures
        final(buf).emitted(old(buf), enc_jmp_reg(reg)),
{
    let mut v: Vec<u8> = Vec::new();
    put_jmp_reg(&mut v, reg);
    assert(v@ =~= enc_jmp_reg(reg));
    buf.emit_bytes(v.as_slice());
}

/// The bytes of `emit_call_reg`.
pub open spec fn enc_call_reg(reg: Reg) -> Seq<u8> {
    enc_modrm_ext(OPC_GRP5, Ext5Op::CallN.spec_code(), reg)
}

/// Append the bytes of `emit_call_reg` to `v`.
pub fn put_call_reg(v: &mut Vec<u8>, reg: Reg)
    ensures
        final(v)@ == old(v)@ + enc_call_reg(reg),
{
    let ghost v0 = v@;
    push_modrm_ext(v, OPC_GRP5, Ext5Op::CallN.code(), reg);
    assert(v@ =~= v0 + enc_call_reg(reg));
}

/// Indirect CALL through `reg`.
pub fn emit_call_reg(buf: &mut CodeBuffer, reg: Reg)
    requires
        old(buf).has_room(enc_call_reg(reg).len() as int),
    ensures
        final(buf).emitted(old(buf), enc_call_reg(reg)),
{
    let mut v: Vec<u8> = Vec::new();
    put_call_reg(&mut v, reg);
    assert(v@ =~= enc_call_reg(reg));
    buf.emit_bytes(v.as_slice());
}

/// The bytes of `emit_setcc`.
pub open spec fn enc_setcc(cond: X86Cond, dst: Reg) -> Seq<u8> {
    enc_modrm_ext((OPC_SETCC + cond.spec_code()) as u32, 0, dst)
}

/// Append the bytes of `emit_setcc` to `v`.
pub fn put_setcc(v: &mut Vec<u8>, cond: X86Cond, dst: Reg)
    ensures
        final(v)@ == old(v)@ + enc_setcc(cond, dst),
{
    let ghost v0 = v@;
    push_modrm_ext(v, OPC_SETCC + (cond.code() as u32), 0, dst);
    assert(v@ =~= v0 + enc_setcc(cond, dst));
}

/// SETcc dst (byte register).
pub fn emit_setcc(buf: &mut CodeBuffer, cond: X86Cond, dst: Reg)
    requires
        old(buf).has_room(enc_setcc(cond, dst).len() as int),
    ensures
        final(buf).emitted(old(buf), enc_setcc(cond, dst)),
{
    let mut v: Vec<u8> = Vec::new();
    put_setcc(&mut v, cond, dst);
    assert(v@ =~= enc_setcc(cond, dst));
    buf.emit_bytes(v.as_slice());
}

/// The bytes of `emit_cmovcc`.
pub open spec fn enc_cmovcc(cond: X86Cond, rexw: bool, dst: Reg, src: Reg) -> Seq<u8> {
    enc_modrm(((OPC_CMOVCC + cond.spec_code()) as u32) | wflag(rexw), dst, src)
}

/// Append the bytes of `emit_cmovcc` to `v`.
pub fn put_cmovcc(v: &mut Vec<u8>, cond: X86Cond, rexw: bool, dst: Reg, src: Reg)
    ensures
        final(v)@ == old(v)@ + enc_cmovcc(cond, rexw, dst, src),
{
    let ghost v0 = v@;
    push_modrm(v, (OPC_CMOVCC + (cond.code() as u32)) | rexw_flag(rexw), dst, src);
    assert(v@ =~= v0 + enc_cmovcc(cond, rexw, dst, src));
}

/// CMOVcc dst, src.
pub fn emit_cmovcc(buf: &mut CodeBuffer, cond: X86Cond, rexw: bool, dst: Reg, src: Reg)
    requires
        old(buf).has_room(enc_cmovcc(cond, rexw, dst, src).len() as int),
    ensures
        final(buf).emitted(old(buf), enc_cmovcc(cond, rexw, dst, src)),
{
    let mut v: Vec<u8> = Vec::new();
    put_cmovcc(&mut v, cond, rexw, dst, src);
    assert(v@ =~= enc_cmovcc(cond, rexw, dst, src));
    buf.emit_bytes(v.as_slice());
}

/// The bytes of `emit_test_rr`.
pub open spec fn enc_test_rr(rexw: bool, r1: Reg, r2: Reg) -> Seq<u8> {
    enc_modrm(OPC_TESTL | wflag(rexw), r1, r2)
}

/// Append the bytes of `emit_test_rr` to `v`.
pub fn put_test_rr(v: &mut Vec<u8>, rexw: bool, r1: Reg, r2: Reg)
    ensures
        final(v)@ == old(v)@ + enc_test_rr(rexw, r1, r2),
{
    let ghost v0 = v@;
    push_modrm(v, OPC_TESTL | rexw_flag(rexw), r1, r2);
    assert(v@ =~= v0 + enc_test_rr(rexw, r1, r2));
}

/// TEST r1, r2.
pub fn emit_test_rr(buf: &mut CodeBuffer, rexw: bool, r1: Reg, r2: Reg)
    requires
        old(buf).has_room(enc_test_rr(rexw, r1, r2).len() as int),
    ensures
        final(buf).emitted(old(buf), enc_test_rr(rexw, r1, r2)),
{
    let mut v: Vec<u8> = Vec::new();
    put_test_rr(&mut v, rexw, r1, r2);
    assert(v@ =~= enc_test_rr(rexw, r1, r2));
    buf.emit_bytes(v.as_slice());
}

/// The bytes of `emit_test_bi`.
pub open spec fn enc_test_bi(reg: Reg, imm: u8) -> Seq<u8> {
    enc_modrm_ext(OPC_GRP3_EB | P_REXB_RM, 0, reg) + seq![imm]
}

/// Append the bytes of `emit_test_bi` to `v`.
pub fn put_test_bi(v: &mut Vec<u8>, reg: Reg, imm: u8)
    ensures
        final(v)@ == old(v)@ + enc_test_bi(reg, imm),
{
    let ghost v0 = v@;
    push_modrm_ext(v, OPC_GRP3_EB | P_REXB_RM, 0, reg);
    v.push(imm);
    assert(v@ =~= v0 + enc_test_bi(reg, imm));
}

/// TEST byte reg, imm8.
pub fn emit_test_bi(buf: &mut CodeBuffer, reg: Reg, imm: u8)
    requires
        old(buf).has_room(enc_test_bi(reg, imm).len() as int),
    ensures
        final(buf).emitted(old(buf), enc_test_bi(reg, imm)),
{
    let mut v: Vec<u8> = Vec::new();
    put_test_bi(&mut v, reg, imm);
    assert(v@ =~= enc_test_bi(reg, imm));
    buf.emit_bytes(v.as_slice());
}

/// The bytes of `emit_xchg`.
pub open spec fn enc_xchg(rexw: bool, r1: Reg, r2: Reg) -> Seq<u8> {
    enc_modrm(OPC_XCHG_EVGV | wflag(rexw), r1, r2)
}

/// Append the bytes of `emit_xchg` to `v`.
pub fn put_xchg(v: &mut Vec<u8>, rexw: bool, r1: Reg, r2: Reg)
    ensures
        final(v)@ == old(v)@ + enc_xchg(rexw, r1, r2),
{
    let ghost v0 = v@;
    push_modrm(v, OPC_XCHG_EVGV | rexw_flag(rexw), r1, r2);
    assert(v@ =~= v0 + enc_xchg(rexw, r1, r2));
}

/// XCHG r1, r2.
pub fn emit_xchg(buf: &mut CodeBuffer, rexw: bool, r1: Reg, r2: Reg)
    requires
        old(buf).has_room(enc_xchg(rexw, r1, r2).len() as int),
    ensures
        final(buf).emitted(old(buf), enc_xchg(rexw, r1, r2)),
{
    let mut v: Vec<u8> = Vec::new();
    put_xchg(&mut v, rexw, r1, r2);
    assert(v@ =~= enc_xchg(rexw, r1, r2));
    buf.emit_bytes(v.as_slice());
}

/// The bytes of `emit_push`.
pub open spec fn enc_push(reg: Reg) -> Seq<u8> {
    enc_opc((OPC_PUSH_R32 + reg.spec_low3()) as u32, 0, reg.spec_num())
}

/// Append the bytes of `emit_push` to `v`.
pub fn put_push(v: &mut Vec<u8>, reg: Reg)
    ensures
        final(v)@ == old(v)@ + enc_push(reg),
{
    let ghost v0 = v@;
    push_opc(v, OPC_PUSH_R32 + (reg.low3() as u32), 0, reg.num());
    assert(v@ =~= v0 + enc_push(reg));
}

/// PUSH reg; the register is encoded in the opcode byte.
pub fn emit_push(buf: &mut CodeBuffer, reg: Reg)
    requires
        old(buf).has_room(enc_push(reg).len() as int),
    ensures
        final(buf).emitted(old(buf), enc_push(reg)),
{
    let mut v: Vec<u8> = Vec::new();
    put_push(&mut v, reg);
    assert(v@ =~= enc_push(reg));
    buf.emit_bytes(v.as_slice());
}

/// The bytes of `emit_pop`.
pub open spec fn enc_pop(reg: Reg) -> Seq<u8> {
    enc_opc((OPC_POP_R32 + reg.spec_low3()) as u32, 0, reg.spec_num())
}

/// Append the bytes of `emit_pop` to `v`.
pub fn put_pop(v: &mut Vec<u8>, reg: Reg)
    ensures
        final(v)@ == old(v)@ + enc_pop(reg),
{
    let ghost v0 = v@;
    push_opc(v, OPC_POP_R32 + (reg.low3() as u32), 0, reg.num());
    assert(v@ =~= v0 + enc_pop(reg));
}

/// POP reg; the register is encoded in the opcode byte.
pub fn emit_pop(buf: &mut CodeBuffer, reg: Reg)
    requires
        old(buf).has_room(enc_pop(reg).len() as int),
    ensures
        final(buf).emitted(old(buf), enc_pop(reg)),
{
    let mut v: Vec<u8> = Vec::new();
    put_pop(&mut v, reg);
    assert(v@ =~= enc_pop(reg));
    buf.emit_bytes(v.as_slice());
}

/// The bytes of `emit_push_imm`.
pub open spec fn enc_push_imm(imm: i32) -> Seq<u8> {
    if -128 <= imm <= 127 {
        seq![OPC_PUSH_IB as u8, imm as u8]
    } else {
        seq![OPC_PUSH_IZ as u8] + le32(imm as u32)
    }
}

/// Append the bytes of `emit_push_imm` to `v`.
pub fn put_push_imm(v: &mut Vec<u8>, imm: i32)
    ensures
        final(v)@ == old(v)@ + enc_push_imm(imm),
{
    let ghost v0 = v@;
    if -128 <= imm && imm <= 127 {
        v.push(OPC_PUSH_IB as u8);
        v.push(imm as u8);
    } else {
        v.push(OPC_PUSH_IZ as u8);
        push_u32(v, imm as u32);
    }
    assert(v@ =~= v0 + enc_push_imm(imm));
}

/// PUSH imm (imm8 form when it fits a byte).
pub fn emit_push_imm(buf: &mut CodeBuffer, imm: i32)
    requires
        old(buf).has_room(enc_push_imm(imm).len() as int),
    ensures
        final(buf).emitted(old(buf), enc_push_imm(imm)),
{
    let mut v: Vec<u8> = Vec::new();
    put_push_imm(&mut v, imm);
    assert(v@ =~= enc_push_imm(imm));
    buf.emit_bytes(v.as_slice());
}

/// The bytes of `emit_ud2`.
pub open spec fn enc_ud2() -> Seq<u8> {
    enc_opc(OPC_UD2, 0, 0)
}

/// Append the bytes of `emit_ud2` to `v`.
pub fn put_ud2(v: &mut Vec<u8>)
    ensures
        final(v)@ == old(v)@ + enc_ud2(),
{
    let ghost v0 = v@;
    push_opc(v, OPC_UD2, 0, 0);
    assert(v@ =~= v0 + enc_ud2());
}

/// UD2 (trap).
pub fn emit_ud2(buf: &mut CodeBuffer)
    requires
        old(buf).has_room(enc_ud2().len() as int),
    ensures
        final(buf).emitted(old(buf), enc_ud2()),
{
    let mut v: Vec<u8> = Vec::new();
    put_ud2(&mut v);
    assert(v@ =~= enc_ud2());
    buf.emit_bytes(v.as_slice());
}

/// The bytes of `emit_inc`.
pub open spec fn enc_inc(rexw: bool, reg: Reg) -> Seq<u8> {
    enc_modrm_ext(OPC_GRP5 | wflag(rexw), Ext5Op::IncEv.spec_code(), reg)
}

/// Append the bytes of `emit_inc` to `v`.
pub fn put_inc(v: &mut Vec<u8>, rexw: bool, reg: Reg)
    ensures
        final(v)@ == old(v)@ + enc_inc(rexw, reg),
{
    let ghost v0 = v@;
    push_modrm_ext(v, OPC_GRP5 | rexw_flag(rexw), Ext5Op::IncEv.code(), reg);
    assert(v@ =~= v0 + enc_inc(rexw, reg));
}

/// INC reg.
pub fn emit_inc(buf: &mut CodeBuffer, rexw: bool, reg: Reg)
    requires
        old(buf).has_room(enc_inc(rexw, reg).len() as int),
    ensures
        final(buf).emitted(old(buf), enc_inc(rexw, reg)),
{
    let mut v: Vec<u8> = Vec::new();
    put_inc(&mut v, rexw, reg);
    assert(v@ =~= enc_inc(rexw, reg));
    buf.emit_bytes(v.as_slice());
}

/// The bytes of `emit_dec`.
pub open spec fn enc_dec(rexw: bool, reg: Reg) -> Seq<u8> {
    enc_modrm_ext(OPC_GRP5 | wflag(rexw), Ext5Op::DecEv.spec_code(), reg)
}

/// Append the bytes of `emit_dec` to `v`.
pub fn put_dec(v: &mut Vec<u8>, rexw: bool, reg: Reg)
    ensures
        final(v)@ == old(v)@ + enc_dec(rexw, reg),
{
    let ghost v0 = v@;
    push_modrm_ext(v, OPC_GRP5 | rexw_flag(rexw), Ext5Op::DecEv.code(), reg);
    assert(v@ =~= v0 + enc_dec(rexw, reg));
}

/// DEC reg.
pub fn emit_dec(buf: &mut CodeBuffer, rexw: bool, reg: Reg)
    requires
        old(buf).has_room(enc_dec(rexw, reg).len() as int),
    ensures
        final(buf).emitted(old(buf), enc_dec(rexw, reg)),
{
    let mut v: Vec<u8> = Vec::new();
    put_dec(&mut v, rexw, reg);
    assert(v@ =~= enc_dec(rexw, reg));
    buf.emit_bytes(v.as_slice());
}

/// The bytes of `emit_shld_ri`.
pub open spec fn enc_shld_ri(rexw: bool, dst: Reg, src: Reg, imm: u8) -> Seq<u8> {
    enc_modrm(OPC_SHLD_IB | wflag(rexw), src, dst) + seq![imm]
}

/// Append the bytes of `emit_shld_ri` to `v`.
pub fn put_shld_ri(v: &mut Vec<u8>, rexw: bool, dst: Reg, src: Reg, imm: u8)
    ensures
        final(v)@ == old(v)@ + enc_shld_ri(rexw, dst, src, imm),
{
    let ghost v0 = v@;
    push_modrm(v, OPC_SHLD_IB | rexw_flag(rexw), src, dst);
    v.push(imm);
    assert(v@ =~= v0 + enc_shld_ri(rexw, dst, src, imm));
}

/// SHLD dst, src, imm8.
pub fn emit_shld_ri(buf: &mut CodeBuffer, rexw: bool, dst: Reg, src: Reg, imm: u8)
    requires
        old(buf).has_room(enc_shld_ri(rexw, dst, src, imm).len() as int),
    ensures
        final(buf).emitted(old(buf), enc_shld_ri(rexw, dst, src, imm)),
{
    let mut v: Vec<u8> = Vec::new();
    put_shld_ri(&mut v, rexw, dst, src, imm);
    assert(v@ =~= enc_shld_ri(rexw, dst, src, imm));
    buf.emit_bytes(v.as_slice());
}

/// The bytes of `emit_shrd_ri`.
pub open spec fn enc_shrd_ri(rexw: bool, dst: Reg, src: Reg, imm: u8) -> Seq<u8> {
    enc_modrm(OPC_SHRD_IB | wflag(rexw), src, dst) + seq![imm]
}

/// Append the bytes of `emit_shrd_ri` to `v`.
pub fn put_shrd_ri(v: &mut Vec<u8>, rexw: bool, dst: Reg, src: Reg, imm: u8)
    ensures
        final(v)@ == old(v)@ + enc_shrd_ri(rexw, dst, src, imm),
{
    let ghost v0 = v@;
    push_modrm(v, OPC_SHRD_IB | rexw_flag(rexw), src, dst);
    v.push(imm);
    assert(v@ =~= v0 + enc_shrd_ri(rexw, dst, src, imm));
}

/// SHRD dst, src, imm8.
pub fn emit_shrd_ri(buf: &mut CodeBuffer, rexw: bool, dst: Reg, src: Reg, imm: u8)
    requires
        old(buf).has_room(enc_shrd_ri(rexw, dst, src, imm).len() as int),
    ensures
        final(buf).emitted(old(buf), enc_shrd_ri(rexw, dst, src, imm)),
{
    let mut v: Vec<u8> = Vec::new();
    put_shrd_ri(&mut v, rexw, dst, src, imm);
    assert(v@ =~= enc_shrd_ri(rexw, dst, src, imm));
    buf.emit_bytes(v.as_slice());
}

/// The bytes of `emit_rolw_8`.
pub open spec fn enc_rolw_8(reg: Reg) -> Seq<u8> {
    enc_modrm_ext(P_DATA16 | OPC_SHIFT_IB, ShiftOp::Rol.spec_code(), reg) + seq![8u8]
}

/// Append the bytes of `emit_rolw_8` to `v`.
pub fn put_rolw_8(v: &mut Vec<u8>, reg: Reg)
    ensures
        final(v)@ == old(v)@ + enc_rolw_8(reg),
{
    let ghost v0 = v@;
    push_modrm_ext(v, P_DATA16 | OPC_SHIFT_IB, ShiftOp::Rol.code(), reg);
    v.push(8);
    assert(v@ =~= v0 + enc_rolw_8(reg));
}

/// ROL reg16, 8 (swaps the two low bytes).
pub fn emit_rolw_8(buf: &mut CodeBuffer, reg: Reg)
    requires
        old(buf).has_room(enc_rolw_8(reg).len() as int),
    ensures
        final(buf).emitted(old(buf), enc_rolw_8(reg)),
{
    let mut v: Vec<u8> = Vec::new();
    put_rolw_8(&mut v, reg);
    assert(v@ =~= enc_rolw_8(reg));
    buf.emit_bytes(v.as_slice());
}

/// CDQ: sign-extend EAX into EDX:EAX.
pub fn emit_cdq(buf: &mut CodeBuffer)
    requires
        old(buf).has_room(1),
    ensures
        final(buf).emitted(old(buf), seq![0x99u8]),
{
    buf.emit_u8(0x99);
}

/// CQO: sign-extend RAX into RDX:RAX.
pub fn emit_cqo(buf: &mut CodeBuffer)
    requires
        old(buf).has_room(2),
    ensures
        final(buf).emitted(old(buf), seq![0x48u8, 0x99u8]),
{
    buf.emit_bytes(&[0x48, 0x99]);
}

/// RET.
pub fn emit_ret(buf: &mut CodeBuffer)
    requires
        old(buf).has_room(1),
    ensures
        final(buf).emitted(old(buf), seq![0xC3u8]),
{
    buf.emit_u8(OPC_RET as u8);
}

/// MFENCE.
pub fn emit_mfence(buf: &mut CodeBuffer)
    requires
        old(buf).has_room(3),
    ensures
        final(buf).emitted(old(buf), seq![0x0Fu8, 0xAEu8, 0xF0u8]),
{
    buf.emit_bytes(&[0x0F, 0xAE, 0xF0]);
}

/// Append STC.
pub fn put_stc(v: &mut Vec<u8>)
    ensures
        final(v)@ == old(v)@ + seq![0xF9u8],
{
    v.push(0xF9);
}

/// Append RET.
pub fn put_ret(v: &mut Vec<u8>)
    ensures
        final(v)@ == old(v)@ + seq![0xC3u8],
{
    v.push(OPC_RET as u8);
}

/// STC (set the carry flag).
pub fn emit_stc(buf: &mut CodeBuffer)
    requires
        old(buf).has_room(1),
    ensures
        final(buf).emitted(old(buf), seq![0xF9u8]),
{
    buf.emit_u8(0xF9);
}

/// The low 32 bits of a wrapped 64-bit difference are those of the true
/// difference.
pub proof fn lemma_disp32(t: u64, a: u64)
    ensures
        (t.wrapping_sub(a)) as u32 == (t - a) as u32,
{
    assert(((if t - a < 0 {
        (t - a + 0x1_0000_0000_0000_0000int) as u64
    } else {
        (t - a) as u64
    }) as u32) == (t - a) as u32) by (bit_vector);
}

/// The bytes of a Jcc rel32 placed at `at` that jumps to `target`.
pub open spec fn enc_jcc(cond: X86Cond, target: int, at: int) -> Seq<u8> {
    seq![0x0Fu8, (0x80u8 | cond.spec_code()) as u8] + rel32(target, at + 6)
}

/// The bytes of a JMP rel32 placed at `at` that jumps to `target`.
pub open spec fn enc_jmp(target: int, at: int) -> Seq<u8> {
    seq![0xE9u8] + rel32(target, at + 5)
}

/// The bytes of a CALL rel32 placed at `at` that calls `target`.
pub open spec fn enc_call(target: int, at: int) -> Seq<u8> {
    seq![0xE8u8] + rel32(target, at + 5)
}

/// Append a Jcc rel32 placed at offset `at` that jumps to `target`.
pub fn put_jcc(v: &mut Vec<u8>, cond: X86Cond, target: usize, at: usize)
    requires
        at + 6 <= usize::MAX,
        fits_i32(target - (at + 6)),
    ensures
        final(v)@ == old(v)@ + enc_jcc(cond, target as int, at as int),
{
    let ghost v0 = v@;
    let disp = (target as u64).wrapping_sub((at + 6) as u64);
    proof {
        lemma_disp32(target as u64, (at + 6) as u64);
    }
    let c = cond.code();
    v.push(0x0F);
    v.push(0x80 | c);
    push_u32(v, disp as u32);
    assert(v@ =~= v0 + enc_jcc(cond, target as int, at as int));
}

/// Append a JMP rel32 placed at offset `at` that jumps to `target`.
pub fn put_jmp(v: &mut Vec<u8>, target: usize, at: usize)
    requires
        at + 5 <= usize::MAX,
        fits_i32(target - (at + 5)),
    ensures
        final(v)@ == old(v)@ + enc_jmp(target as int, at as int),
{
    let ghost v0 = v@;
    let disp = (target as u64).wrapping_sub((at + 5) as u64);
    proof {
        lemma_disp32(target as u64, (at + 5) as u64);
    }
    v.push(OPC_JMP_LONG as u8);
    push_u32(v, disp as u32);
    assert(v@ =~= v0 + enc_jmp(target as int, at as int));
}

/// Jcc rel32 to the absolute buffer offset `target_offset`.
pub fn emit_jcc(buf: &mut CodeBuffer, cond: X86Cond, target_offset: usize)
    requires
        old(buf).has_room(6),
        fits_i32(target_offset - (old(buf).offset + 6)),
    ensures
        final(buf).emitted(old(buf), enc_jcc(cond, target_offset as int, old(buf).offset as int)),
{
    let mut v: Vec<u8> = Vec::new();
    put_jcc(&mut v, cond, target_offset, buf.offset());
    assert(v@ =~= enc_jcc(cond, target_offset as int, old(buf).offset as int));
    buf.emit_bytes(v.as_slice());
}

/// JMP rel32 to the absolute buffer offset `target_offset`.
pub fn emit_jmp(buf: &mut CodeBuffer, target_offset: usize)
    requires
        old(buf).has_room(5),
        fits_i32(target_offset - (old(buf).offset + 5)),
    ensures
        final(buf).emitted(old(buf), enc_jmp(target_offset as int, old(buf).offset as int)),
{
    let mut v: Vec<u8> = Vec::new();
    put_jmp(&mut v, target_offset, buf.offset());
    assert(v@ =~= enc_jmp(target_offset as int, old(buf).offset as int));
    buf.emit_bytes(v.as_slice());
}

/// CALL rel32 to the absolute buffer offset `target_offset`.
pub fn emit_call(buf: &mut CodeBuffer, target_offset: usize)
    requires
        old(buf).has_room(5),
        fits_i32(target_offset - (old(buf).offset + 5)),
    ensures
        final(buf).emitted(old(buf), enc_call(target_offset as int, old(buf).offset as int)),
{
    let after = buf.offset() + 5;
    let disp = (target_offset as u64).wrapping_sub(after as u64);
    proof {
        lemma_disp32(target_offset as u64, after as u64);
    }
    let mut v: Vec<u8> = Vec::new();
    v.push(OPC_CALL_JZ as u8);
    push_u32(&mut v, disp as u32);
    assert(v@ =~= enc_call(target_offset as int, old(buf).offset as int));
    buf.emit_bytes(v.as_slice());
}

/// The recommended multi-byte NOP of `n` bytes, 1 <= n <= 8.
pub open spec fn nop_chunk(n: nat) -> Seq<u8> {
    if n == 1 {
        seq![0x90u8]
    } else if n == 2 {
        seq![0x66u8, 0x90u8]
    } else if n == 3 {
        seq![0x0Fu8, 0x1Fu8, 0x00u8]
    } else if n == 4 {
        seq![0x0Fu8, 0x1Fu8, 0x40u8, 0x00u8]
    } else if n == 5 {
        seq![0x0Fu8, 0x1Fu8, 0x44u8, 0x00u8, 0x00u8]
    } else if n == 6 {
        seq![0x66u8, 0x0Fu8, 0x1Fu8, 0x44u8, 0x00u8, 0x00u8]
    } else if n == 7 {
        seq![0x0Fu8, 0x1Fu8, 0x80u8, 0x00u8, 0x00u8, 0x00u8, 0x00u8]
    } else {
        seq![0x0Fu8, 0x1Fu8, 0x84u8, 0x00u8, 0x00u8, 0x00u8, 0x00u8, 0x00u8]
    }
}

/// `n` bytes of padding: 8-byte NOPs, then one shorter NOP for the rest.
pub open spec fn nop_seq(n: nat) -> Seq<u8>
    decreases n,
{
    if n == 0 {
        Seq::<u8>::empty()
    } else if n <= 8 {
        nop_chunk(n)
    } else {
        nop_chunk(8) + nop_seq((n - 8) as nat)
    }
}

/// NOP padding is exactly as long as asked for.
pub proof fn lemma_nop_seq_len(n: nat)
    ensures
        nop_seq(n).len() == n,
    decreases n,
{
    if n > 8 {
        lemma_nop_seq_len((n - 8) as nat);
    }
}

/// Append `n` bytes of NOP padding to `v`.
pub fn put_nops(v: &mut Vec<u8>, n: usize)
    ensures
        final(v)@ == old(v)@ + nop_seq(n as nat),
{
    let ghost start = v@;
    let mut rest: usize = n;
    while rest > 0
        invariant
            rest <= n,
            v@ + nop_seq(rest as nat) == start + nop_seq(n as nat),
        decreases rest,
    {
        let k: usize = if rest >= 8 { 8 } else { rest };
        let ghost v0 = v@;
        if k == 1 {
            v.push(0x90);
        } else if k == 2 {
            v.push(0x66);
            v.push(0x90);
        } else if k == 3 {
            v.push(0x0F);
            v.push(0x1F);
            v.push(0x00);
        } else if k == 4 {
            v.push(0x0F);
            v.push(0x1F);
            v.push(0x40);
            v.push(0x00);
        } else if k == 5 {
            v.push(0x0F);
            v.push(0x1F);
            v.push(0x44);
            v.push(0x00);
            v.push(0x00);
        } else if k == 6 {
            v.push(0x66);
            v.push(0x0F);
            v.push(0x1F);
            v.push(0x44);
            v.push(0x00);
            v.push(0x00);
        } else if k == 7 {
            v.push(0x0F);
            v.push(0x1F);
            v.push(0x80);
            push_u32(v, 0);
        } else {
            v.push(0x0F);
            v.push(0x1F);
            v.push(0x84);
            v.push(0x00);
            push_u32(v, 0);
        }
        proof {
            crate::backend::code_buffer::lemma_le32_zero();
            assert(v@ =~= v0 + nop_chunk(k as nat));
            let r = rest as nat;
            if r <= 8 {
                assert(nop_seq((r - k) as nat) =~= Seq::<u8>::empty());
                assert(nop_seq(r) =~= nop_chunk(k as nat) + nop_seq((r - k) as nat));
            } else {
                assert(nop_seq(r) == nop_chunk(8) + nop_seq((r - 8) as nat));
            }
            assert(v0 + nop_seq(r) =~= v@ + nop_seq((r - k) as nat));
        }
        rest = rest - k;
    }
    assert(v@ =~= start + nop_seq(n as nat));
}

/// Emit `n` bytes of NOP padding using the recommended multi-byte NOPs.
pub fn emit_nops(buf: &mut CodeBuffer, n: usize)
    requires
        old(buf).has_room(n as int),
    ensures
        final(buf).emitted(old(buf), nop_seq(n as nat)),
{
    let mut v: Vec<u8> = Vec::new();
    put_nops(&mut v, n);
    proof {
        lemma_nop_seq_len(n as nat);
    }
    assert(v@ =~= nop_seq(n as nat));
    buf.emit_bytes(v.as_slice());
}

/// IR conditions become the x86 condition codes of the same meaning (Intel
/// SDM, Jcc/SETcc/CMOVcc): equality 4 (E) and 5 (NE), the signed orders
/// 12 (L), 13 (GE), 14 (LE), 15 (G) and the unsigned ones 2 (B), 3 (AE),
/// 6 (BE), 7 (A). Inverting the IR condition flips the low bit of the code,
/// and swapping the operands of an order maps L to G, GE to LE, B to A and
/// AE to BE.
pub proof fn law_cond_codes(c: Cond)
    ensures
        c is Eq || c is TstEq ==> X86Cond::spec_from_tcg(c).spec_code() == 4,
        c is Ne || c is TstNe ==> X86Cond::spec_from_tcg(c).spec_code() == 5,
        c is Lt ==> X86Cond::spec_from_tcg(c).spec_code() == 12,
        c is Ge ==> X86Cond::spec_from_tcg(c).spec_code() == 13,
        c is Le ==> X86Cond::spec_from_tcg(c).spec_code() == 14,
        c is Gt ==> X86Cond::spec_from_tcg(c).spec_code() == 15,
        c is Ltu ==> X86Cond::spec_from_tcg(c).spec_code() == 2,
        c is Geu ==> X86Cond::spec_from_tcg(c).spec_code() == 3,
        c is Leu ==> X86Cond::spec_from_tcg(c).spec_code() == 6,
        c is Gtu ==> X86Cond::spec_from_tcg(c).spec_code() == 7,
        X86Cond::spec_from_tcg(c.spec_invert()).spec_code() == if X86Cond::spec_from_tcg(c).spec_code() % 2 == 0 {
            X86Cond::spec_from_tcg(c).spec_code() + 1
        } else {
            X86Cond::spec_from_tcg(c).spec_code() - 1
        },
        c.spec_is_signed() ==> X86Cond::spec_from_tcg(c.spec_swap()).spec_code() == 27 - X86Cond::spec_from_tcg(
            c,
        ).spec_code(),
        c.spec_is_unsigned() ==> X86Cond::spec_from_tcg(c.spec_swap()).spec_code() == 9 - X86Cond::spec_from_tcg(
            c,
        ).spec_code(),
{
}

} // verus!
