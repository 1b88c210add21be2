//! RISC-V disassembler for RV64I with the M, A and C extensions.
//!
//! Every function here is stated exactly: the text it returns is given by
//! a spec function of the instruction word, written over `text`'s spec
//! functions for decimal and hexadecimal output.
use vstd::prelude::*;
use crate::text::{dec, hex, hex0x, lit, put_dec, put_hex0x, put_hex0x_pad, put_sdec, put_str, sdec, zpad};

verus! {

// ---------------------------------------------------------------
// Register names
// ---------------------------------------------------------------

/// ABI name of integer register `r & 0x1f`.
pub open spec fn reg_str(r: u32) -> &'static str {
    match r & 0x1f {
        0u32 => "zero",
        1u32 => "ra",
        2u32 => "sp",
        3u32 => "gp",
        4u32 => "tp",
        5u32 => "t0",
        6u32 => "t1",
        7u32 => "t2",
        8u32 => "s0",
        9u32 => "s1",
        10u32 => "a0",
        11u32 => "a1",
        12u32 => "a2",
        13u32 => "a3",
        14u32 => "a4",
        15u32 => "a5",
        16u32 => "a6",
        17u32 => "a7",
        18u32 => "s2",
        19u32 => "s3",
        20u32 => "s4",
        21u32 => "s5",
        22u32 => "s6",
        23u32 => "s7",
        24u32 => "s8",
        25u32 => "s9",
        26u32 => "s10",
        27u32 => "s11",
        28u32 => "t3",
        29u32 => "t4",
        30u32 => "t5",
        _ => "t6",
    }
}

pub open spec fn reg_name(r: u32) -> Seq<u8> {
    lit(reg_str(r))
}

/// Name of the compressed-form register `r & 7`, which stands for `x8`..`x15`.
pub open spec fn creg_name(r: u32) -> Seq<u8> {
    reg_name(8u32 | (r & 0x7))
}

fn reg(r: u32) -> (s: &'static str)
    ensures
        s == reg_str(r),
{
    match r & 0x1f {
        0u32 => "zero",
        1u32 => "ra",
        2u32 => "sp",
        3u32 => "gp",
        4u32 => "tp",
        5u32 => "t0",
        6u32 => "t1",
        7u32 => "t2",
        8u32 => "s0",
        9u32 => "s1",
        10u32 => "a0",
        11u32 => "a1",
        12u32 => "a2",
        13u32 => "a3",
        14u32 => "a4",
        15u32 => "a5",
        16u32 => "a6",
        17u32 => "a7",
        18u32 => "s2",
        19u32 => "s3",
        20u32 => "s4",
        21u32 => "s5",
        22u32 => "s6",
        23u32 => "s7",
        24u32 => "s8",
        25u32 => "s9",
        26u32 => "s10",
        27u32 => "s11",
        28u32 => "t3",
        29u32 => "t4",
        30u32 => "t5",
        _ => "t6",
    }
}

fn creg(r: u32) -> (s: &'static str)
    ensures
        lit(s) == creg_name(r),
{
    reg(8u32 | (r & 0x7))
}

// ---------------------------------------------------------------
// Immediates
// ---------------------------------------------------------------

/// The low `bits` bits of `val`, sign-extended.
pub open spec fn sext(val: u32, bits: u32) -> i64 {
    (((val << ((32 - bits) as u32)) as i32) >> ((32 - bits) as u32)) as i64
}

fn sign_ext(val: u32, bits: u32) -> (r: i64)
    requires
        1 <= bits <= 32,
    ensures
        r == sext(val, bits),
{
    let shift: u32 = 32 - bits;
    (((val << shift) as i32) >> shift) as i64
}

/// J-type immediate.
pub open spec fn j_imm(insn: u32) -> i64 {
    sext(
        (((insn >> 31) & 1) << 20) | (((insn >> 12) & 0xff) << 12) | (((insn >> 20) & 1) << 11) | (((insn >> 21) & 0x3ff) << 1),
        21,
    )
}

/// B-type immediate.
pub open spec fn b_imm(insn: u32) -> i64 {
    sext(
        (((insn >> 31) & 1) << 12) | (((insn >> 7) & 1) << 11) | (((insn >> 25) & 0x3f) << 5) | (((insn >> 8) & 0xf) << 1),
        13,
    )
}

/// S-type immediate.
pub open spec fn s_imm(insn: u32) -> i64 {
    sext((((insn >> 25) & 0x7f) << 5) | ((insn >> 7) & 0x1f), 12)
}

/// I-type immediate.
pub open spec fn i_imm(insn: u32) -> i64 {
    sext(insn >> 20, 12)
}

fn jtype_imm(insn: u32) -> (r: i64)
    ensures
        r == j_imm(insn),
{
    let b20 = (insn >> 31) & 1;
    let b10_1 = (insn >> 21) & 0x3ff;
    let b11 = (insn >> 20) & 1;
    let b19_12 = (insn >> 12) & 0xff;
    sign_ext((b20 << 20) | (b19_12 << 12) | (b11 << 11) | (b10_1 << 1), 21)
}

fn btype_imm(insn: u32) -> (r: i64)
    ensures
        r == b_imm(insn),
{
    let b12 = (insn >> 31) & 1;
    let b10_5 = (insn >> 25) & 0x3f;
    let b4_1 = (insn >> 8) & 0xf;
    let b11 = (insn >> 7) & 1;
    sign_ext((b12 << 12) | (b11 << 11) | (b10_5 << 5) | (b4_1 << 1), 13)
}

fn stype_imm(insn: u32) -> (r: i64)
    ensures
        r == s_imm(insn),
{
    let hi = (insn >> 25) & 0x7f;
    let lo = (insn >> 7) & 0x1f;
    sign_ext((hi << 5) | lo, 12)
}

fn itype_imm(insn: u32) -> (r: i64)
    ensures
        r == i_imm(insn),
{
    sign_ext(insn >> 20, 12)
}

/// The branch or jump target `pc + off`, modulo 2^64.
pub open spec fn target(pc: u64, off: i64) -> u64 {
    vstd::wrapping::u64_specs::wrapping_add(pc, off as u64)
}

// ---------------------------------------------------------------
// Text shapes
// ---------------------------------------------------------------

/// `op a`
pub open spec fn form1(op: Seq<u8>, a: Seq<u8>) -> Seq<u8> {
    op + lit(" ") + a
}

/// `op a, b`
pub open spec fn form2(op: Seq<u8>, a: Seq<u8>, b: Seq<u8>) -> Seq<u8> {
    op + lit(" ") + a + lit(", ") + b
}

/// `op a, b, c`
pub open spec fn form3(op: Seq<u8>, a: Seq<u8>, b: Seq<u8>, c: Seq<u8>) -> Seq<u8> {
    op + lit(" ") + a + lit(", ") + b + lit(", ") + c
}

/// `op a, off(base)`
pub open spec fn form_mem(op: Seq<u8>, a: Seq<u8>, off: Seq<u8>, base: Seq<u8>) -> Seq<u8> {
    op + lit(" ") + a + lit(", ") + off + lit("(") + base + lit(")")
}

/// `.word 0x` and eight hexadecimal digits.
pub open spec fn word_text(insn: u32) -> Seq<u8> {
    lit(".word ") + seq![48u8, 120u8] + zpad(8, hex(insn as nat))
}

/// `.half 0x` and at least four hexadecimal digits.
pub open spec fn half_text(h: u32) -> Seq<u8> {
    lit(".half ") + seq![48u8, 120u8] + zpad(4, hex(h as nat))
}

fn form1_bytes(op: &[u8], a: &[u8]) -> (r: Vec<u8>)
    ensures
        r@ == form1(op@, a@),
{
    let mut out: Vec<u8> = Vec::new();
    out.extend_from_slice(op);
    put_str(&mut out, " ");
    out.extend_from_slice(a);
    assert(out@ =~= form1(op@, a@));
    out
}

fn form2_bytes(op: &[u8], a: &[u8], b: &[u8]) -> (r: Vec<u8>)
    ensures
        r@ == form2(op@, a@, b@),
{
    let mut out: Vec<u8> = Vec::new();
    out.extend_from_slice(op);
    put_str(&mut out, " ");
    out.extend_from_slice(a);
    put_str(&mut out, ", ");
    out.extend_from_slice(b);
    assert(out@ =~= form2(op@, a@, b@));
    out
}

fn form3_bytes(op: &[u8], a: &[u8], b: &[u8], c: &[u8]) -> (r: Vec<u8>)
    ensures
        r@ == form3(op@, a@, b@, c@),
{
    let mut out: Vec<u8> = Vec::new();
    out.extend_from_slice(op);
    put_str(&mut out, " ");
    out.extend_from_slice(a);
    put_str(&mut out, ", ");
    out.extend_from_slice(b);
    put_str(&mut out, ", ");
    out.extend_from_slice(c);
    assert(out@ =~= form3(op@, a@, b@, c@));
    out
}

fn form_mem_bytes(op: &[u8], a: &[u8], off: &[u8], base: &[u8]) -> (r: Vec<u8>)
    ensures
        r@ == form_mem(op@, a@, off@, base@),
{
    let mut out: Vec<u8> = Vec::new();
    out.extend_from_slice(op);
    put_str(&mut out, " ");
    out.extend_from_slice(a);
    put_str(&mut out, ", ");
    out.extend_from_slice(off);
    put_str(&mut out, "(");
    out.extend_from_slice(base);
    put_str(&mut out, ")");
    assert(out@ =~= form_mem(op@, a@, off@, base@));
    out
}

fn sdec_bytes(v: i64) -> (r: Vec<u8>)
    ensures
        r@ == sdec(v as int),
{
    let mut out: Vec<u8> = Vec::new();
    put_sdec(&mut out, v);
    assert(out@ =~= sdec(v as int));
    out
}

fn dec_bytes(v: u64) -> (r: Vec<u8>)
    ensures
        r@ == dec(v as nat),
{
    let mut out: Vec<u8> = Vec::new();
    put_dec(&mut out, v);
    assert(out@ =~= dec(v as nat));
    out
}

fn hex0x_bytes(v: u64) -> (r: Vec<u8>)
    ensures
        r@ == hex0x(v as nat),
{
    let mut out: Vec<u8> = Vec::new();
    put_hex0x(&mut out, v);
    assert(out@ =~= hex0x(v as nat));
    out
}

fn word(insn: u32) -> (r: Vec<u8>)
    ensures
        r@ == word_text(insn),
{
    let mut out: Vec<u8> = Vec::new();
    put_str(&mut out, ".word ");
    put_hex0x_pad(&mut out, insn as u64, 8);
    assert(out@ =~= word_text(insn));
    out
}

fn half(h: u32) -> (r: Vec<u8>)
    ensures
        r@ == half_text(h),
{
    let mut out: Vec<u8> = Vec::new();
    put_str(&mut out, ".half ");
    put_hex0x_pad(&mut out, h as u64, 4);
    assert(out@ =~= half_text(h));
    out
}

/// `(` `base` `)`
pub open spec fn paren(base: Seq<u8>) -> Seq<u8> {
    lit("(") + base + lit(")")
}

fn paren_bytes(base: &[u8]) -> (r: Vec<u8>)
    ensures
        r@ == paren(base@),
{
    let mut out: Vec<u8> = Vec::new();
    put_str(&mut out, "(");
    out.extend_from_slice(base);
    put_str(&mut out, ")");
    assert(out@ =~= paren(base@));
    out
}

// ---------------------------------------------------------------
// 32-bit formats
// ---------------------------------------------------------------

pub open spec fn branch_op(f3: u32) -> &'static str {
    match f3 {
        0u32 => "beq",
        1u32 => "bne",
        4u32 => "blt",
        5u32 => "bge",
        6u32 => "bltu",
        _ => "bgeu",
    }
}

/// Text of a conditional branch (`beqz`/`bnez` where `rs2` is `zero`).
pub open spec fn branch_text(insn: u32, pc: u64, f3: u32, rs1: u32, rs2: u32) -> Seq<u8> {
    let t = hex0x(target(pc, b_imm(insn)) as nat);
    if f3 == 2 || f3 == 3 || f3 > 7 {
        word_text(insn)
    } else if f3 == 0 && rs2 == 0 {
        form2(lit("beqz"), reg_name(rs1), t)
    } else if f3 == 1 && rs2 == 0 {
        form2(lit("bnez"), reg_name(rs1), t)
    } else {
        form3(lit(branch_op(f3)), reg_name(rs1), reg_name(rs2), t)
    }
}

fn disasm_branch(insn: u32, pc: u64, f3: u32, rs1: u32, rs2: u32) -> (r: Vec<u8>)
    ensures
        r@ == branch_text(insn, pc, f3, rs1, rs2),
{
    let imm = btype_imm(insn);
    let target = pc.wrapping_add(imm as u64);
    let op = match f3 {
        0 => "beq",
        1 => "bne",
        4 => "blt",
        5 => "bge",
        6 => "bltu",
        7 => "bgeu",
        _ => {
            return word(insn);
        },
    };
    let t = hex0x_bytes(target);
    if f3 == 0 && rs2 == 0 {
        form2_bytes("beqz".as_bytes(), reg(rs1).as_bytes(), t.as_slice())
    } else if f3 == 1 && rs2 == 0 {
        form2_bytes("bnez".as_bytes(), reg(rs1).as_bytes(), t.as_slice())
    } else {
        form3_bytes(op.as_bytes(), reg(rs1).as_bytes(), reg(rs2).as_bytes(), t.as_slice())
    }
}

pub open spec fn load_op(f3: u32) -> &'static str {
    match f3 {
        0u32 => "lb",
        1u32 => "lh",
        2u32 => "lw",
        3u32 => "ld",
        4u32 => "lbu",
        5u32 => "lhu",
        _ => "lwu",
    }
}

/// Text of a load: `op rd, imm(rs1)`.
pub open spec fn load_text(insn: u32, f3: u32, rd: u32, rs1: u32) -> Seq<u8> {
    if f3 <= 6 {
        form_mem(lit(load_op(f3)), reg_name(rd), sdec(i_imm(insn) as int), reg_name(rs1))
    } else {
        word_text(insn)
    }
}

fn disasm_load(insn: u32, f3: u32, rd: u32, rs1: u32) -> (r: Vec<u8>)
    ensures
        r@ == load_text(insn, f3, rd, rs1),
{
    let imm = itype_imm(insn);
    let op = match f3 {
        0 => "lb",
        1 => "lh",
        2 => "lw",
        3 => "ld",
        4 => "lbu",
        5 => "lhu",
        6 => "lwu",
        _ => {
            return word(insn);
        },
    };
    let i = sdec_bytes(imm);
    form_mem_bytes(op.as_bytes(), reg(rd).as_bytes(), i.as_slice(), reg(rs1).as_bytes())
}

pub open spec fn store_op(f3: u32) -> &'static str {
    match f3 {
        0u32 => "sb",
        1u32 => "sh",
        2u32 => "sw",
        _ => "sd",
    }
}

/// Text of a store: `op rs2, imm(rs1)`.
pub open spec fn store_text(insn: u32, f3: u32, rs1: u32, rs2: u32) -> Seq<u8> {
    if f3 <= 3 {
        form_mem(lit(store_op(f3)), reg_name(rs2), sdec(s_imm(insn) as int), reg_name(rs1))
    } else {
        word_text(insn)
    }
}

fn disasm_store(insn: u32, f3: u32, rs1: u32, rs2: u32) -> (r: Vec<u8>)
    ensures
        r@ == store_text(insn, f3, rs1, rs2),
{
    let imm = stype_imm(insn);
    let op = match f3 {
        0 => "sb",
        1 => "sh",
        2 => "sw",
        3 => "sd",
        _ => {
            return word(insn);
        },
    };
    let i = sdec_bytes(imm);
    form_mem_bytes(op.as_bytes(), reg(rs2).as_bytes(), i.as_slice(), reg(rs1).as_bytes())
}

/// Text of an OP-IMM instruction, with the `li`, `mv`, `seqz` and `not`
/// aliases. `f3` is the three-bit funct3 field; the value 7 and above read as `andi`.
pub open spec fn op_imm_text(insn: u32, f3: u32, rd: u32, rs1: u32) -> Seq<u8> {
    let imm = i_imm(insn);
    let d = reg_name(rd);
    let s = reg_name(rs1);
    let i = sdec(imm as int);
    let sh = dec(((insn >> 20) & 0x3f) as nat);
    if f3 == 0 {
        if rs1 == 0 {
            form2(lit("li"), d, i)
        } else if imm == 0 {
            form2(lit("mv"), d, s)
        } else {
            form3(lit("addi"), d, s, i)
        }
    } else if f3 == 1 {
        form3(lit("slli"), d, s, sh)
    } else if f3 == 2 {
        form3(lit("slti"), d, s, i)
    } else if f3 == 3 {
        if imm == 1 {
            form2(lit("seqz"), d, s)
        } else {
            form3(lit("sltiu"), d, s, i)
        }
    } else if f3 == 4 {
        if imm == -1 {
            form2(lit("not"), d, s)
        } else {
            form3(lit("xori"), d, s, i)
        }
    } else if f3 == 5 {
        if insn >> 26 == 0 {
            form3(lit("srli"), d, s, sh)
        } else {
            form3(lit("srai"), d, s, sh)
        }
    } else if f3 == 6 {
        form3(lit("ori"), d, s, i)
    } else {
        form3(lit("andi"), d, s, i)
    }
}

fn disasm_op_imm(insn: u32, f3: u32, rd: u32, rs1: u32) -> (r: Vec<u8>)
    ensures
        r@ == op_imm_text(insn, f3, rd, rs1),
{
    let imm = itype_imm(insn);
    let shamt = (insn >> 20) & 0x3f;
    let d = reg(rd).as_bytes();
    let s = reg(rs1).as_bytes();
    let iv = sdec_bytes(imm);
    let i = iv.as_slice();
    let shv = dec_bytes(shamt as u64);
    let sh = shv.as_slice();
    if f3 == 0 {
        if rs1 == 0 {
            form2_bytes("li".as_bytes(), d, i)
        } else if imm == 0 {
            form2_bytes("mv".as_bytes(), d, s)
        } else {
            form3_bytes("addi".as_bytes(), d, s, i)
        }
    } else if f3 == 1 {
        form3_bytes("slli".as_bytes(), d, s, sh)
    } else if f3 == 2 {
        form3_bytes("slti".as_bytes(), d, s, i)
    } else if f3 == 3 {
        if imm == 1 {
            form2_bytes("seqz".as_bytes(), d, s)
        } else {
            form3_bytes("sltiu".as_bytes(), d, s, i)
        }
    } else if f3 == 4 {
        if imm == -1 {
            form2_bytes("not".as_bytes(), d, s)
        } else {
            form3_bytes("xori".as_bytes(), d, s, i)
        }
    } else if f3 == 5 {
        if insn >> 26 == 0 {
            form3_bytes("srli".as_bytes(), d, s, sh)
        } else {
            form3_bytes("srai".as_bytes(), d, s, sh)
        }
    } else if f3 == 6 {
        form3_bytes("ori".as_bytes(), d, s, i)
    } else {
        form3_bytes("andi".as_bytes(), d, s, i)
    }
}

/// The M-extension operation for `funct3`; the value 7 and above read as `remu`.
pub open spec fn m_op(f3: u32) -> &'static str {
    match f3 {
        0u32 => "mul",
        1u32 => "mulh",
        2u32 => "mulhsu",
        3u32 => "mulhu",
        4u32 => "div",
        5u32 => "divu",
        6u32 => "rem",
        _ => "remu",
    }
}

/// The base-ISA register-register operation for `(funct3, funct7)`, if any.
pub open spec fn alu_op(f3: u32, f7: u32) -> Option<&'static str> {
    match (f3, f7) {
        (0u32, 0u32) => Some("add"),
        (0u32, 0x20u32) => Some("sub"),
        (1u32, 0u32) => Some("sll"),
        (2u32, 0u32) => Some("slt"),
        (3u32, 0u32) => Some("sltu"),
        (4u32, 0u32) => Some("xor"),
        (5u32, 0u32) => Some("srl"),
        (5u32, 0x20u32) => Some("sra"),
        (6u32, 0u32) => Some("or"),
        (7u32, 0u32) => Some("and"),
        _ => None,
    }
}

/// `name f3=<decimal> f7=0x<hex>`, the text for an unknown encoding.
pub open spec fn unknown_op_text(name: Seq<u8>, f3: u32, f7: u32) -> Seq<u8> {
    name + lit(" f3=") + dec(f3 as nat) + lit(" f7=") + hex0x(f7 as nat)
}

fn unknown_op(name: &str, f3: u32, f7: u32) -> (r: Vec<u8>)
    ensures
        r@ == unknown_op_text(lit(name), f3, f7),
{
    let mut out: Vec<u8> = Vec::new();
    put_str(&mut out, name);
    put_str(&mut out, " f3=");
    put_dec(&mut out, f3 as u64);
    put_str(&mut out, " f7=");
    put_hex0x(&mut out, f7 as u64);
    assert(out@ =~= unknown_op_text(lit(name), f3, f7));
    out
}

/// Text of an OP instruction, with the `snez` alias.
pub open spec fn op_text(f3: u32, f7: u32, rd: u32, rs1: u32, rs2: u32) -> Seq<u8> {
    if f7 == 1 {
        form3(lit(m_op(f3)), reg_name(rd), reg_name(rs1), reg_name(rs2))
    } else {
        match alu_op(f3, f7) {
            Some(op) => if f3 == 3 && rs1 == 0 {
                form2(lit("snez"), reg_name(rd), reg_name(rs2))
            } else {
                form3(lit(op), reg_name(rd), reg_name(rs1), reg_name(rs2))
            },
            None => unknown_op_text(lit("op"), f3, f7),
        }
    }
}

fn disasm_op(f3: u32, f7: u32, rd: u32, rs1: u32, rs2: u32) -> (r: Vec<u8>)
    ensures
        r@ == op_text(f3, f7, rd, rs1, rs2),
{
    if f7 == 1 {
        let op = match f3 {
            0 => "mul",
            1 => "mulh",
            2 => "mulhsu",
            3 => "mulhu",
            4 => "div",
            5 => "divu",
            6 => "rem",
            _ => "remu",
        };
        return form3_bytes(op.as_bytes(), reg(rd).as_bytes(), reg(rs1).as_bytes(), reg(rs2).as_bytes());
    }
    let op = match (f3, f7) {
        (0, 0) => "add",
        (0, 0x20) => "sub",
        (1, 0) => "sll",
        (2, 0) => "slt",
        (3, 0) => "sltu",
        (4, 0) => "xor",
        (5, 0) => "srl",
        (5, 0x20) => "sra",
        (6, 0) => "or",
        (7, 0) => "and",
        _ => {
            return unknown_op("op", f3, f7);
        },
    };
    if f3 == 3 && rs1 == 0 {
        form2_bytes("snez".as_bytes(), reg(rd).as_bytes(), reg(rs2).as_bytes())
    } else {
        form3_bytes(op.as_bytes(), reg(rd).as_bytes(), reg(rs1).as_bytes(), reg(rs2).as_bytes())
    }
}

/// Text of an OP-IMM-32 instruction, with the `sext.w` alias.
pub open spec fn op_imm32_text(insn: u32, f3: u32, rd: u32, rs1: u32) -> Seq<u8> {
    let imm = i_imm(insn);
    let d = reg_name(rd);
    let s = reg_name(rs1);
    let sh = dec(((insn >> 20) & 0x1f) as nat);
    if f3 == 0 {
        if imm == 0 {
            form2(lit("sext.w"), d, s)
        } else {
            form3(lit("addiw"), d, s, sdec(imm as int))
        }
    } else if f3 == 1 {
        form3(lit("slliw"), d, s, sh)
    } else if f3 == 5 {
        if insn >> 25 == 0 {
            form3(lit("srliw"), d, s, sh)
        } else {
            form3(lit("sraiw"), d, s, sh)
        }
    } else {
        word_text(insn)
    }
}

fn disasm_op_imm32(insn: u32, f3: u32, rd: u32, rs1: u32) -> (r: Vec<u8>)
    ensures
        r@ == op_imm32_text(insn, f3, rd, rs1),
{
    let imm = itype_imm(insn);
    let shamt = (insn >> 20) & 0x1f;
    let d = reg(rd).as_bytes();
    let s = reg(rs1).as_bytes();
    if f3 == 0 {
        if imm == 0 {
            form2_bytes("sext.w".as_bytes(), d, s)
        } else {
            let i = sdec_bytes(imm);
            form3_bytes("addiw".as_bytes(), d, s, i.as_slice())
        }
    } else if f3 == 1 {
        let sh = dec_bytes(shamt as u64);
        form3_bytes("slliw".as_bytes(), d, s, sh.as_slice())
    } else if f3 == 5 {
        let sh = dec_bytes(shamt as u64);
        if insn >> 25 == 0 {
            form3_bytes("srliw".as_bytes(), d, s, sh.as_slice())
        } else {
            form3_bytes("sraiw".as_bytes(), d, s, sh.as_slice())
        }
    } else {
        word(insn)
    }
}

/// The RV64M word operation for `funct3`, if any.
pub open spec fn m32_op(f3: u32) -> Option<&'static str> {
    match f3 {
        0u32 => Some("mulw"),
        4u32 => Some("divw"),
        5u32 => Some("divuw"),
        6u32 => Some("remw"),
        7u32 => Some("remuw"),
        _ => None,
    }
}

/// The RV64I word register-register operation for `(funct3, funct7)`, if any.
pub open spec fn alu32_op(f3: u32, f7: u32) -> Option<&'static str> {
    match (f3, f7) {
        (0u32, 0u32) => Some("addw"),
        (0u32, 0x20u32) => Some("subw"),
        (1u32, 0u32) => Some("sllw"),
        (5u32, 0u32) => Some("srlw"),
        (5u32, 0x20u32) => Some("sraw"),
        _ => None,
    }
}

/// Text of an OP-32 instruction.
pub open spec fn op32_text(f3: u32, f7: u32, rd: u32, rs1: u32, rs2: u32) -> Seq<u8> {
    let found = if f7 == 1 { m32_op(f3) } else { alu32_op(f3, f7) };
    match found {
        Some(op) => form3(lit(op), reg_name(rd), reg_name(rs1), reg_name(rs2)),
        None => unknown_op_text(lit("op32"), f3, f7),
    }
}

fn disasm_op32(f3: u32, f7: u32, rd: u32, rs1: u32, rs2: u32) -> (r: Vec<u8>)
    ensures
        r@ == op32_text(f3, f7, rd, rs1, rs2),
{
    if f7 == 1 {
        let op = match f3 {
            0 => "mulw",
            4 => "divw",
            5 => "divuw",
            6 => "remw",
            7 => "remuw",
            _ => {
                return unknown_op("op32", f3, f7);
            },
        };
        return form3_bytes(op.as_bytes(), reg(rd).as_bytes(), reg(rs1).as_bytes(), reg(rs2).as_bytes());
    }
    let op = match (f3, f7) {
        (0, 0) => "addw",
        (0, 0x20) => "subw",
        (1, 0) => "sllw",
        (5, 0) => "srlw",
        (5, 0x20) => "sraw",
        _ => {
            return unknown_op("op32", f3, f7);
        },
    };
    form3_bytes(op.as_bytes(), reg(rd).as_bytes(), reg(rs1).as_bytes(), reg(rs2).as_bytes())
}


pub open spec fn amo_suffix(f3: u32) -> &'static str {
    if f3 == 2 { ".w" } else { ".d" }
}

pub open spec fn aqrl_str(aq: u32, rl: u32) -> &'static str {
    match (aq, rl) {
        (0u32, 0u32) => "",
        (1u32, 0u32) => ".aq",
        (0u32, 1u32) => ".rl",
        _ => ".aqrl",
    }
}

/// The read-modify-write atomic operation for `funct5`, if any.
pub open spec fn amo_op(funct5: u32) -> Option<&'static str> {
    match funct5 {
        0x01u32 => Some("amoswap"),
        0x00u32 => Some("amoadd"),
        0x04u32 => Some("amoxor"),
        0x0cu32 => Some("amoand"),
        0x08u32 => Some("amoor"),
        0x10u32 => Some("amomin"),
        0x14u32 => Some("amomax"),
        0x18u32 => Some("amominu"),
        0x1cu32 => Some("amomaxu"),
        _ => None,
    }
}

/// Text of an A-extension instruction: `lr`, `sc` or an AMO, with its
/// width suffix and ordering bits.
pub open spec fn amo_text(insn: u32, f3: u32, rd: u32, rs1: u32, rs2: u32) -> Seq<u8> {
    let funct5 = insn >> 27;
    let tail = lit(amo_suffix(f3)) + lit(aqrl_str((insn >> 26) & 1, (insn >> 25) & 1));
    let base = paren(reg_name(rs1));
    if f3 != 2 && f3 != 3 {
        word_text(insn)
    } else if funct5 == 0x02 {
        form2(lit("lr") + tail, reg_name(rd), base)
    } else if funct5 == 0x03 {
        form3(lit("sc") + tail, reg_name(rd), reg_name(rs2), base)
    } else {
        match amo_op(funct5) {
            Some(op) => form3(lit(op) + tail, reg_name(rd), reg_name(rs2), base),
            None => word_text(insn),
        }
    }
}

fn aqrl_of(aq: u32, rl: u32) -> (r: &'static str)
    ensures
        r == aqrl_str(aq, rl),
{
    match (aq, rl) {
        (0, 0) => "",
        (1, 0) => ".aq",
        (0, 1) => ".rl",
        _ => ".aqrl",
    }
}

fn amo_name(funct5: u32) -> (r: Option<&'static str>)
    ensures
        r == amo_op(funct5),
{
    match funct5 {
        0x01 => Some("amoswap"),
        0x00 => Some("amoadd"),
        0x04 => Some("amoxor"),
        0x0c => Some("amoand"),
        0x08 => Some("amoor"),
        0x10 => Some("amomin"),
        0x14 => Some("amomax"),
        0x18 => Some("amominu"),
        0x1c => Some("amomaxu"),
        _ => None,
    }
}

/// `name` followed by `tail`.
fn joined(name: &str, tail: &[u8]) -> (r: Vec<u8>)
    ensures
        r@ == lit(name) + tail@,
{
    let mut out: Vec<u8> = Vec::new();
    put_str(&mut out, name);
    out.extend_from_slice(tail);
    out
}

fn disasm_amo(insn: u32, f3: u32, rd: u32, rs1: u32, rs2: u32) -> (r: Vec<u8>)
    ensures
        r@ == amo_text(insn, f3, rd, rs1, rs2),
{
    let funct5 = insn >> 27;
    let aq = (insn >> 26) & 1;
    let rl = (insn >> 25) & 1;
    let suffix = match f3 {
        2 => ".w",
        3 => ".d",
        _ => {
            return word(insn);
        },
    };
    let aqrl = aqrl_of(aq, rl);
    let mut tail: Vec<u8> = Vec::new();
    put_str(&mut tail, suffix);
    put_str(&mut tail, aqrl);
    assert(tail@ =~= lit(amo_suffix(f3)) + lit(aqrl_str((insn >> 26) & 1, (insn >> 25) & 1)));
    let base = paren_bytes(reg(rs1).as_bytes());
    if funct5 == 0x02 {
        let op = joined("lr", tail.as_slice());
        form2_bytes(op.as_slice(), reg(rd).as_bytes(), base.as_slice())
    } else if funct5 == 0x03 {
        let op = joined("sc", tail.as_slice());
        form3_bytes(op.as_slice(), reg(rd).as_bytes(), reg(rs2).as_bytes(), base.as_slice())
    } else {
        match amo_name(funct5) {
            Some(name) => {
                let op = joined(name, tail.as_slice());
                form3_bytes(op.as_slice(), reg(rd).as_bytes(), reg(rs2).as_bytes(), base.as_slice())
            },
            None => word(insn),
        }
    }
}

pub open spec fn csr_op(f3: u32) -> &'static str {
    match f3 {
        1u32 => "csrrw",
        2u32 => "csrrs",
        3u32 => "csrrc",
        5u32 => "csrrwi",
        6u32 => "csrrsi",
        _ => "csrrci",
    }
}

/// Text of a SYSTEM instruction: `ecall`, `ebreak` or a CSR access; the
/// immediate forms print the `rs1` field as a number.
pub open spec fn system_text(insn: u32, rd: u32, rs1: u32, f3: u32) -> Seq<u8> {
    let csr = hex0x((insn >> 20) as nat);
    if f3 == 0 {
        if insn == 0x73 {
            lit("ecall")
        } else if insn == 0x0010_0073 {
            lit("ebreak")
        } else {
            word_text(insn)
        }
    } else if f3 == 4 || f3 > 7 {
        word_text(insn)
    } else if f3 >= 5 {
        form3(lit(csr_op(f3)), reg_name(rd), csr, dec(rs1 as nat))
    } else {
        form3(lit(csr_op(f3)), reg_name(rd), csr, reg_name(rs1))
    }
}

fn disasm_system(insn: u32, rd: u32, rs1: u32, f3: u32) -> (r: Vec<u8>)
    ensures
        r@ == system_text(insn, rd, rs1, f3),
{
    if f3 == 0 {
        if insn == 0x0000_0073 {
            let mut out: Vec<u8> = Vec::new();
            put_str(&mut out, "ecall");
            assert(out@ =~= lit("ecall"));
            return out;
        } else if insn == 0x0010_0073 {
            let mut out: Vec<u8> = Vec::new();
            put_str(&mut out, "ebreak");
            assert(out@ =~= lit("ebreak"));
            return out;
        } else {
            return word(insn);
        }
    }
    let csr = insn >> 20;
    let op = match f3 {
        1 => "csrrw",
        2 => "csrrs",
        3 => "csrrc",
        5 => "csrrwi",
        6 => "csrrsi",
        7 => "csrrci",
        _ => {
            return word(insn);
        },
    };
    let c = hex0x_bytes(csr as u64);
    if f3 >= 5 {
        let n = dec_bytes(rs1 as u64);
        form3_bytes(op.as_bytes(), reg(rd).as_bytes(), c.as_slice(), n.as_slice())
    } else {
        form3_bytes(op.as_bytes(), reg(rd).as_bytes(), c.as_slice(), reg(rs1).as_bytes())
    }
}

/// The `lui` operand as printed: the upper twenty bits, sign-extended, shown
/// as the 32-bit two's complement pattern.
pub open spec fn lui_field(insn: u32) -> u32 {
    (((insn & 0xfffff000) as i32) >> 12u32) as u32
}

/// The `auipc` offset, sign-extended to 64 bits.
pub open spec fn auipc_imm(insn: u32) -> i64 {
    ((insn & 0xfffff000) as i32) as i64
}

/// Text of a 32-bit instruction at `pc`.
pub open spec fn insn32_text(insn: u32, pc: u64) -> Seq<u8> {
    let opcode = insn & 0x7f;
    let rd = (insn >> 7) & 0x1f;
    let funct3 = (insn >> 12) & 0x7;
    let rs1 = (insn >> 15) & 0x1f;
    let rs2 = (insn >> 20) & 0x1f;
    let funct7 = insn >> 25;
    if opcode == 0x37 {
        form2(lit("lui"), reg_name(rd), hex0x(lui_field(insn) as nat))
    } else if opcode == 0x17 {
        form2(lit("auipc"), reg_name(rd), hex0x((((auipc_imm(insn) >> 12u32) & 0xfffff) as u64) as nat))
            + lit("  # ") + hex0x(target(pc, auipc_imm(insn)) as nat)
    } else if opcode == 0x6f {
        let t = hex0x(target(pc, j_imm(insn)) as nat);
        if rd == 0 {
            form1(lit("j"), t)
        } else {
            form2(lit("jal"), reg_name(rd), t)
        }
    } else if opcode == 0x67 {
        let imm = i_imm(insn);
        if rd == 0 && imm == 0 {
            form1(lit("jr"), reg_name(rs1))
        } else if rd == 1 && imm == 0 {
            form1(lit("jalr"), reg_name(rs1))
        } else {
            form_mem(lit("jalr"), reg_name(rd), sdec(imm as int), reg_name(rs1))
        }
    } else if opcode == 0x63 {
        branch_text(insn, pc, funct3, rs1, rs2)
    } else if opcode == 0x03 {
        load_text(insn, funct3, rd, rs1)
    } else if opcode == 0x23 {
        store_text(insn, funct3, rs1, rs2)
    } else if opcode == 0x13 {
        op_imm_text(insn, funct3, rd, rs1)
    } else if opcode == 0x33 {
        op_text(funct3, funct7, rd, rs1, rs2)
    } else if opcode == 0x1b {
        op_imm32_text(insn, funct3, rd, rs1)
    } else if opcode == 0x3b {
        op32_text(funct3, funct7, rd, rs1, rs2)
    } else if opcode == 0x2f {
        amo_text(insn, funct3, rd, rs1, rs2)
    } else if opcode == 0x73 {
        system_text(insn, rd, rs1, funct3)
    } else if opcode == 0x0f {
        if funct3 == 0 {
            lit("fence")
        } else {
            lit("fence.i")
        }
    } else {
        word_text(insn)
    }
}

fn str_bytes(s: &str) -> (r: Vec<u8>)
    ensures
        r@ == lit(s),
{
    let mut out: Vec<u8> = Vec::new();
    put_str(&mut out, s);
    assert(out@ =~= lit(s));
    out
}

fn disasm32(insn: u32, pc: u64) -> (r: Vec<u8>)
    ensures
        r@ == insn32_text(insn, pc),
{
    let opcode = insn & 0x7f;
    let rd = (insn >> 7) & 0x1f;
    let funct3 = (insn >> 12) & 0x7;
    let rs1 = (insn >> 15) & 0x1f;
    let rs2 = (insn >> 20) & 0x1f;
    let funct7 = insn >> 25;
    match opcode {
        0x37 => {
            let imm = (insn & 0xfffff000) as i32;
            let v = hex0x_bytes(((imm >> 12u32) as u32) as u64);
            form2_bytes("lui".as_bytes(), reg(rd).as_bytes(), v.as_slice())
        },
        0x17 => {
            let imm = ((insn & 0xfffff000) as i32) as i64;
            let target = pc.wrapping_add(imm as u64);
            let v = hex0x_bytes(((imm >> 12u32) & 0xfffff) as u64);
            let mut out = form2_bytes("auipc".as_bytes(), reg(rd).as_bytes(), v.as_slice());
            put_str(&mut out, "  # ");
            put_hex0x(&mut out, target);
            out
        },
        0x6f => {
            let imm = jtype_imm(insn);
            let target = pc.wrapping_add(imm as u64);
            let t = hex0x_bytes(target);
            if rd == 0 {
                form1_bytes("j".as_bytes(), t.as_slice())
            } else {
                form2_bytes("jal".as_bytes(), reg(rd).as_bytes(), t.as_slice())
            }
        },
        0x67 => {
            let imm = sign_ext(insn >> 20, 12);
            if rd == 0 && imm == 0 {
                form1_bytes("jr".as_bytes(), reg(rs1).as_bytes())
            } else if rd == 1 && imm == 0 {
                form1_bytes("jalr".as_bytes(), reg(rs1).as_bytes())
            } else {
                let i = sdec_bytes(imm);
                form_mem_bytes("jalr".as_bytes(), reg(rd).as_bytes(), i.as_slice(), reg(rs1).as_bytes())
            }
        },
        0x63 => disasm_branch(insn, pc, funct3, rs1, rs2),
        0x03 => disasm_load(insn, funct3, rd, rs1),
        0x23 => disasm_store(insn, funct3, rs1, rs2),
        0x13 => disasm_op_imm(insn, funct3, rd, rs1),
        0x33 => disasm_op(funct3, funct7, rd, rs1, rs2),
        0x1b => disasm_op_imm32(insn, funct3, rd, rs1),
        0x3b => disasm_op32(funct3, funct7, rd, rs1, rs2),
        0x2f => disasm_amo(insn, funct3, rd, rs1, rs2),
        0x73 => disasm_system(insn, rd, rs1, funct3),
        0x0f => {
            if funct3 == 0 {
                str_bytes("fence")
            } else {
                str_bytes("fence.i")
            }
        },
        _ => word(insn),
    }
}


// ---------------------------------------------------------------
// 16-bit compressed formats
// ---------------------------------------------------------------

/// CI-format six-bit immediate, sign-extended.
pub open spec fn ci_imm(h: u32) -> i64 {
    sext(((h >> 7) & 0x20) | ((h >> 2) & 0x1f), 6)
}

/// `c.addi16sp` immediate, sign-extended.
pub open spec fn addi16sp_imm(h: u32) -> i64 {
    sext(((h >> 3) & 0x200) | ((h >> 2) & 0x10) | ((h << 1) & 0x40) | ((h << 4) & 0x180) | ((h << 3) & 0x20), 10)
}

/// `c.j` offset, sign-extended.
pub open spec fn cj_off(h: u32) -> i64 {
    sext(
        ((h >> 1) & 0x800) | ((h >> 7) & 0x10) | ((h >> 1) & 0x300) | ((h << 2) & 0x400) | ((h >> 1) & 0x40)
            | ((h << 1) & 0x80) | ((h >> 2) & 0xe) | ((h << 3) & 0x20),
        12,
    )
}

/// `c.beqz`/`c.bnez` offset, sign-extended.
pub open spec fn cb_off(h: u32) -> i64 {
    sext(((h >> 4) & 0x100) | ((h >> 7) & 0x18) | ((h << 1) & 0xc0) | ((h >> 2) & 0x6) | ((h << 3) & 0x20), 9)
}

/// `c.lw`/`c.sw` offset.
pub open spec fn clw_off(h: u32) -> u32 {
    ((h >> 7) & 0x38) | ((h >> 4) & 0x4) | ((h << 1) & 0x40)
}

/// `c.ld`/`c.sd` offset.
pub open spec fn cld_off(h: u32) -> u32 {
    ((h >> 7) & 0x38) | ((h << 1) & 0xc0)
}

fn c_imm6(h: u32) -> (r: i64)
    ensures
        r == ci_imm(h),
{
    let raw = ((h >> 7) & 0x20) | ((h >> 2) & 0x1f);
    sign_ext(raw, 6)
}

fn c_addi16sp_imm(h: u32) -> (r: i64)
    ensures
        r == addi16sp_imm(h),
{
    let raw = ((h >> 3) & 0x200) | ((h >> 2) & 0x10) | ((h << 1) & 0x40) | ((h << 4) & 0x180) | ((h << 3) & 0x20);
    sign_ext(raw, 10)
}

fn c_j_off(h: u32) -> (r: i64)
    ensures
        r == cj_off(h),
{
    let raw = ((h >> 1) & 0x800) | ((h >> 7) & 0x10) | ((h >> 1) & 0x300) | ((h << 2) & 0x400) | ((h >> 1) & 0x40)
        | ((h << 1) & 0x80) | ((h >> 2) & 0xe) | ((h << 3) & 0x20);
    sign_ext(raw, 12)
}

fn c_b_off(h: u32) -> (r: i64)
    ensures
        r == cb_off(h),
{
    let raw = ((h >> 4) & 0x100) | ((h >> 7) & 0x18) | ((h << 1) & 0xc0) | ((h >> 2) & 0x6) | ((h << 3) & 0x20);
    sign_ext(raw, 9)
}

fn c_lw_off(h: u32) -> (r: u32)
    ensures
        r == clw_off(h),
{
    ((h >> 7) & 0x38) | ((h >> 4) & 0x4) | ((h << 1) & 0x40)
}

fn c_ld_off(h: u32) -> (r: u32)
    ensures
        r == cld_off(h),
{
    ((h >> 7) & 0x38) | ((h << 1) & 0xc0)
}

/// `c.addi4spn` immediate.
pub open spec fn addi4spn_imm(h: u32) -> u32 {
    ((h >> 1) & 0x40) | ((h >> 7) & 0x30) | ((h >> 2) & 0x8) | ((h >> 4) & 0x4)
}

/// Text of a quadrant-0 compressed instruction.
pub open spec fn c_q0_text(h: u32, f3: u32) -> Seq<u8> {
    let rd = creg_name((h >> 2) & 0x7);
    let rs1 = creg_name((h >> 7) & 0x7);
    if f3 == 0 {
        if addi4spn_imm(h) == 0 {
            half_text(h)
        } else {
            form3(lit("c.addi4spn"), rd, lit("sp"), dec(addi4spn_imm(h) as nat))
        }
    } else if f3 == 2 {
        form_mem(lit("c.lw"), rd, dec(clw_off(h) as nat), rs1)
    } else if f3 == 3 {
        form_mem(lit("c.ld"), rd, dec(cld_off(h) as nat), rs1)
    } else if f3 == 6 {
        form_mem(lit("c.sw"), rd, dec(clw_off(h) as nat), rs1)
    } else if f3 == 7 {
        form_mem(lit("c.sd"), rd, dec(cld_off(h) as nat), rs1)
    } else {
        half_text(h)
    }
}

fn disasm_c_q0(h: u32, f3: u32) -> (r: Vec<u8>)
    ensures
        r@ == c_q0_text(h, f3),
{
    let rd = creg((h >> 2) & 0x7).as_bytes();
    let rs1 = creg((h >> 7) & 0x7).as_bytes();
    match f3 {
        0 => {
            let nzuimm = ((h >> 1) & 0x40) | ((h >> 7) & 0x30) | ((h >> 2) & 0x8) | ((h >> 4) & 0x4);
            if nzuimm == 0 {
                return half(h);
            }
            let n = dec_bytes(nzuimm as u64);
            form3_bytes("c.addi4spn".as_bytes(), rd, "sp".as_bytes(), n.as_slice())
        },
        2 => {
            let off = dec_bytes(c_lw_off(h) as u64);
            form_mem_bytes("c.lw".as_bytes(), rd, off.as_slice(), rs1)
        },
        3 => {
            let off = dec_bytes(c_ld_off(h) as u64);
            form_mem_bytes("c.ld".as_bytes(), rd, off.as_slice(), rs1)
        },
        6 => {
            let off = dec_bytes(c_lw_off(h) as u64);
            form_mem_bytes("c.sw".as_bytes(), rd, off.as_slice(), rs1)
        },
        7 => {
            let off = dec_bytes(c_ld_off(h) as u64);
            form_mem_bytes("c.sd".as_bytes(), rd, off.as_slice(), rs1)
        },
        _ => half(h),
    }
}

/// Text of a quadrant-1 compressed instruction at `pc`.
pub open spec fn c_q1_text(h: u32, f3: u32, pc: u64) -> Seq<u8> {
    let rd = (h >> 7) & 0x1f;
    let imm = sdec(ci_imm(h) as int);
    if f3 == 0 {
        if rd == 0 {
            lit("c.nop")
        } else {
            form2(lit("c.addi"), reg_name(rd), imm)
        }
    } else if f3 == 1 {
        form2(lit("c.addiw"), reg_name(rd), imm)
    } else if f3 == 2 {
        form2(lit("c.li"), reg_name(rd), imm)
    } else if f3 == 3 {
        if rd == 2 {
            form2(lit("c.addi16sp"), lit("sp"), sdec(addi16sp_imm(h) as int))
        } else {
            form2(lit("c.lui"), reg_name(rd), hex0x((ci_imm(h) as u64) as nat))
        }
    } else if f3 == 4 {
        c_alu_text(h)
    } else if f3 == 5 {
        form1(lit("c.j"), hex0x(target(pc, cj_off(h)) as nat))
    } else if f3 == 6 {
        form2(lit("c.beqz"), creg_name((h >> 7) & 0x7), hex0x(target(pc, cb_off(h)) as nat))
    } else if f3 == 7 {
        form2(lit("c.bnez"), creg_name((h >> 7) & 0x7), hex0x(target(pc, cb_off(h)) as nat))
    } else {
        half_text(h)
    }
}

fn disasm_c_q1(h: u32, f3: u32, pc: u64) -> (r: Vec<u8>)
    ensures
        r@ == c_q1_text(h, f3, pc),
{
    match f3 {
        0 => {
            let rd = (h >> 7) & 0x1f;
            let imm = sdec_bytes(c_imm6(h));
            if rd == 0 {
                str_bytes("c.nop")
            } else {
                form2_bytes("c.addi".as_bytes(), reg(rd).as_bytes(), imm.as_slice())
            }
        },
        1 => {
            let rd = (h >> 7) & 0x1f;
            let imm = sdec_bytes(c_imm6(h));
            form2_bytes("c.addiw".as_bytes(), reg(rd).as_bytes(), imm.as_slice())
        },
        2 => {
            let rd = (h >> 7) & 0x1f;
            let imm = sdec_bytes(c_imm6(h));
            form2_bytes("c.li".as_bytes(), reg(rd).as_bytes(), imm.as_slice())
        },
        3 => {
            let rd = (h >> 7) & 0x1f;
            if rd == 2 {
                let imm = sdec_bytes(c_addi16sp_imm(h));
                form2_bytes("c.addi16sp".as_bytes(), "sp".as_bytes(), imm.as_slice())
            } else {
                let imm = hex0x_bytes(c_imm6(h) as u64);
                form2_bytes("c.lui".as_bytes(), reg(rd).as_bytes(), imm.as_slice())
            }
        },
        4 => disasm_c_alu(h),
        5 => {
            let off = c_j_off(h);
            let t = hex0x_bytes(pc.wrapping_add(off as u64));
            form1_bytes("c.j".as_bytes(), t.as_slice())
        },
        6 => {
            let rs1 = creg((h >> 7) & 0x7);
            let off = c_b_off(h);
            let t = hex0x_bytes(pc.wrapping_add(off as u64));
            form2_bytes("c.beqz".as_bytes(), rs1.as_bytes(), t.as_slice())
        },
        7 => {
            let rs1 = creg((h >> 7) & 0x7);
            let off = c_b_off(h);
            let t = hex0x_bytes(pc.wrapping_add(off as u64));
            form2_bytes("c.bnez".as_bytes(), rs1.as_bytes(), t.as_slice())
        },
        _ => half(h),
    }
}

/// Text of a quadrant-2 compressed instruction.
pub open spec fn c_q2_text(h: u32, f3: u32) -> Seq<u8> {
    let rd = (h >> 7) & 0x1f;
    let rs2 = (h >> 2) & 0x1f;
    if f3 == 0 {
        form2(lit("c.slli"), reg_name(rd), dec((((h >> 7) & 0x20) | ((h >> 2) & 0x1f)) as nat))
    } else if f3 == 2 {
        form_mem(lit("c.lwsp"), reg_name(rd), dec((((h >> 2) & 0x1c) | ((h << 4) & 0x20) | ((h >> 7) & 0x40)) as nat), lit("sp"))
    } else if f3 == 3 {
        form_mem(lit("c.ldsp"), reg_name(rd), dec((((h >> 2) & 0x18) | ((h << 4) & 0x20) | ((h >> 7) & 0xc0)) as nat), lit("sp"))
    } else if f3 == 4 {
        if (h >> 12) & 1 == 0 {
            if rs2 == 0 {
                form1(lit("c.jr"), reg_name(rd))
            } else {
                form2(lit("c.mv"), reg_name(rd), reg_name(rs2))
            }
        } else if rs2 == 0 {
            if rd == 0 {
                lit("c.ebreak")
            } else {
                form1(lit("c.jalr"), reg_name(rd))
            }
        } else {
            form2(lit("c.add"), reg_name(rd), reg_name(rs2))
        }
    } else if f3 == 6 {
        form_mem(lit("c.swsp"), reg_name(rs2), dec((((h >> 7) & 0x3c) | ((h >> 1) & 0x40)) as nat), lit("sp"))
    } else if f3 == 7 {
        form_mem(lit("c.sdsp"), reg_name(rs2), dec((((h >> 7) & 0x38) | ((h >> 1) & 0xc0)) as nat), lit("sp"))
    } else {
        half_text(h)
    }
}

fn disasm_c_q2(h: u32, f3: u32) -> (r: Vec<u8>)
    ensures
        r@ == c_q2_text(h, f3),
{
    let rd = (h >> 7) & 0x1f;
    match f3 {
        0 => {
            let shamt = ((h >> 7) & 0x20) | ((h >> 2) & 0x1f);
            let n = dec_bytes(shamt as u64);
            form2_bytes("c.slli".as_bytes(), reg(rd).as_bytes(), n.as_slice())
        },
        2 => {
            let off = ((h >> 2) & 0x1c) | ((h << 4) & 0x20) | ((h >> 7) & 0x40);
            let n = dec_bytes(off as u64);
            form_mem_bytes("c.lwsp".as_bytes(), reg(rd).as_bytes(), n.as_slice(), "sp".as_bytes())
        },
        3 => {
            let off = ((h >> 2) & 0x18) | ((h << 4) & 0x20) | ((h >> 7) & 0xc0);
            let n = dec_bytes(off as u64);
            form_mem_bytes("c.ldsp".as_bytes(), reg(rd).as_bytes(), n.as_slice(), "sp".as_bytes())
        },
        4 => {
            let rs2 = (h >> 2) & 0x1f;
            let bit12 = (h >> 12) & 1;
            if bit12 == 0 {
                if rs2 == 0 {
                    form1_bytes("c.jr".as_bytes(), reg(rd).as_bytes())
                } else {
                    form2_bytes("c.mv".as_bytes(), reg(rd).as_bytes(), reg(rs2).as_bytes())
                }
            } else if rs2 == 0 {
                if rd == 0 {
                    str_bytes("c.ebreak")
                } else {
                    form1_bytes("c.jalr".as_bytes(), reg(rd).as_bytes())
                }
            } else {
                form2_bytes("c.add".as_bytes(), reg(rd).as_bytes(), reg(rs2).as_bytes())
            }
        },
        6 => {
            let rs2 = (h >> 2) & 0x1f;
            let off = ((h >> 7) & 0x3c) | ((h >> 1) & 0x40);
            let n = dec_bytes(off as u64);
            form_mem_bytes("c.swsp".as_bytes(), reg(rs2).as_bytes(), n.as_slice(), "sp".as_bytes())
        },
        7 => {
            let rs2 = (h >> 2) & 0x1f;
            let off = ((h >> 7) & 0x38) | ((h >> 1) & 0xc0);
            let n = dec_bytes(off as u64);
            form_mem_bytes("c.sdsp".as_bytes(), reg(rs2).as_bytes(), n.as_slice(), "sp".as_bytes())
        },
        _ => half(h),
    }
}

/// The CA-format operation for `(bit 12, bits 6:5)`, if any.
pub open spec fn ca_op(bit12: u32, f2b: u32) -> Option<&'static str> {
    match (bit12, f2b) {
        (0u32, 0u32) => Some("c.sub"),
        (0u32, 1u32) => Some("c.xor"),
        (0u32, 2u32) => Some("c.or"),
        (0u32, 3u32) => Some("c.and"),
        (1u32, 0u32) => Some("c.subw"),
        (1u32, 1u32) => Some("c.addw"),
        _ => None,
    }
}

/// Text of the quadrant-1 arithmetic group (`funct3` 4); bits 11:10 select
/// the form, and the value 3 and above is the register-register group.
pub open spec fn c_alu_text(h: u32) -> Seq<u8> {
    let rd = creg_name((h >> 7) & 0x7);
    let f2 = (h >> 10) & 0x3;
    let shamt = dec((((h >> 7) & 0x20) | ((h >> 2) & 0x1f)) as nat);
    if f2 == 0 {
        form2(lit("c.srli"), rd, shamt)
    } else if f2 == 1 {
        form2(lit("c.srai"), rd, shamt)
    } else if f2 == 2 {
        form2(lit("c.andi"), rd, sdec(ci_imm(h) as int))
    } else {
        match ca_op((h >> 12) & 1, (h >> 5) & 0x3) {
            Some(op) => form2(lit(op), rd, creg_name((h >> 2) & 0x7)),
            None => half_text(h),
        }
    }
}

fn ca_name(bit12: u32, f2b: u32) -> (r: Option<&'static str>)
    ensures
        r == ca_op(bit12, f2b),
{
    match (bit12, f2b) {
        (0, 0) => Some("c.sub"),
        (0, 1) => Some("c.xor"),
        (0, 2) => Some("c.or"),
        (0, 3) => Some("c.and"),
        (1, 0) => Some("c.subw"),
        (1, 1) => Some("c.addw"),
        _ => None,
    }
}

fn disasm_c_alu(h: u32) -> (r: Vec<u8>)
    ensures
        r@ == c_alu_text(h),
{
    let rd = creg((h >> 7) & 0x7).as_bytes();
    let f2 = (h >> 10) & 0x3;
    match f2 {
        0 => {
            let shamt = ((h >> 7) & 0x20) | ((h >> 2) & 0x1f);
            let n = dec_bytes(shamt as u64);
            form2_bytes("c.srli".as_bytes(), rd, n.as_slice())
        },
        1 => {
            let shamt = ((h >> 7) & 0x20) | ((h >> 2) & 0x1f);
            let n = dec_bytes(shamt as u64);
            form2_bytes("c.srai".as_bytes(), rd, n.as_slice())
        },
        2 => {
            let imm = sdec_bytes(c_imm6(h));
            form2_bytes("c.andi".as_bytes(), rd, imm.as_slice())
        },
        _ => {
            let rs2 = creg((h >> 2) & 0x7);
            let bit12 = (h >> 12) & 1;
            let f2b = (h >> 5) & 0x3;
            match ca_name(bit12, f2b) {
                Some(op) => form2_bytes(op.as_bytes(), rd, rs2.as_bytes()),
                None => half(h),
            }
        },
    }
}

/// Text of a 16-bit instruction at `pc`.
pub open spec fn insn16_text(h: u32, pc: u64) -> Seq<u8> {
    let quadrant = h & 0x3;
    let funct3 = (h >> 13) & 0x7;
    if quadrant == 0 {
        c_q0_text(h, funct3)
    } else if quadrant == 1 {
        c_q1_text(h, funct3, pc)
    } else if quadrant == 2 {
        c_q2_text(h, funct3)
    } else {
        half_text(h)
    }
}

fn disasm16(h: u32, pc: u64) -> (r: Vec<u8>)
    ensures
        r@ == insn16_text(h, pc),
{
    let quadrant = h & 0x3;
    let funct3 = (h >> 13) & 0x7;
    match quadrant {
        0 => disasm_c_q0(h, funct3),
        1 => disasm_c_q1(h, funct3, pc),
        2 => disasm_c_q2(h, funct3),
        _ => half(h),
    }
}

// ---------------------------------------------------------------
// Entry point
// ---------------------------------------------------------------

/// The first two bytes of `data`, little-endian.
pub open spec fn le16(data: Seq<u8>) -> u32 {
    (data[0] as u32) | ((data[1] as u32) << 8u32)
}

/// The first four bytes of `data`, little-endian.
pub open spec fn le32(data: Seq<u8>) -> u32 {
    (data[0] as u32) | ((data[1] as u32) << 8u32) | ((data[2] as u32) << 16u32) | ((data[3] as u32) << 24u32)
}

/// What disassembling `data` at `pc` gives: the text and the instruction's
/// length in bytes, or `.byte ???` and 0 when `data` is too short.
pub open spec fn disassembly(pc: u64, data: Seq<u8>) -> (Seq<u8>, usize) {
    if data.len() < 2 {
        (lit(".byte ???"), 0)
    } else if le16(data) & 0x3 != 0x3 {
        (insn16_text(le16(data), pc), 2)
    } else if data.len() < 4 {
        (lit(".byte ???"), 0)
    } else {
        (insn32_text(le32(data), pc), 4)
    }
}

/// Disassembles one RISC-V instruction at `pc`: the instruction is
/// compressed (two bytes) unless the low two bits of its first byte are
/// both set, and is read little-endian from `data`.
pub fn print_insn_riscv64(pc: u64, data: &[u8]) -> (r: (Vec<u8>, usize))
    ensures
        r.0@ == disassembly(pc, data@).0,
        r.1 == disassembly(pc, data@).1,
{
    if data.len() < 2 {
        return (str_bytes(".byte ???"), 0);
    }
    let half = (data[0] as u32) | ((data[1] as u32) << 8u32);
    if half & 0x3 != 0x3 {
        (disasm16(half, pc), 2)
    } else {
        if data.len() < 4 {
            return (str_bytes(".byte ???"), 0);
        }
        let insn = (data[0] as u32) | ((data[1] as u32) << 8u32) | ((data[2] as u32) << 16u32) | ((data[3] as u32) << 24u32);
        (disasm32(insn, pc), 4)
    }
}

/// `t` begins with `p`.
pub open spec fn starts_with(t: Seq<u8>, p: Seq<u8>) -> bool {
    p.len() <= t.len() && t.subrange(0, p.len() as int) == p
}

proof fn lemma_starts_form(op: Seq<u8>, a: Seq<u8>, b: Seq<u8>, c: Seq<u8>, word: Seq<u8>)
    requires
        word == op + lit(" "),
    ensures
        starts_with(form3(op, a, b, c), word),
        starts_with(form2(op, a, b), word),
{
    assert(form3(op, a, b, c) =~= word + (a + lit(", ") + b + lit(", ") + c));
    assert((word + (a + lit(", ") + b + lit(", ") + c)).subrange(0, word.len() as int) =~= word);
    assert(form2(op, a, b) =~= word + (a + lit(", ") + b));
    assert((word + (a + lit(", ") + b)).subrange(0, word.len() as int) =~= word);
}

/// An ASCII word followed by a space is, in bytes, the word and then a space.
proof fn lemma_lit_space(w: &str, m: &str)
    requires
        vstd::string::is_ascii(w),
        vstd::string::is_ascii(m),
        vstd::string::is_ascii(" "),
        w@ =~= m@ + " "@,
    ensures
        lit(w) == lit(m) + lit(" "),
{
    broadcast use vstd::string::is_ascii_spec_bytes;

    assert(lit(w) =~= lit(m) + lit(" "));
}

proof fn lemma_word_beq()
    ensures
        lit("beq ") == lit("beq") + lit(" "),
{
    reveal_strlit("beq ");
    reveal_strlit("beq");
    reveal_strlit(" ");
    lemma_lit_space("beq ", "beq");
}

proof fn lemma_word_beqz()
    ensures
        lit("beqz ") == lit("beqz") + lit(" "),
{
    reveal_strlit("beqz ");
    reveal_strlit("beqz");
    reveal_strlit(" ");
    lemma_lit_space("beqz ", "beqz");
}

proof fn lemma_word_bne()
    ensures
        lit("bne ") == lit("bne") + lit(" "),
{
    reveal_strlit("bne ");
    reveal_strlit("bne");
    reveal_strlit(" ");
    lemma_lit_space("bne ", "bne");
}

proof fn lemma_word_bnez()
    ensures
        lit("bnez ") == lit("bnez") + lit(" "),
{
    reveal_strlit("bnez ");
    reveal_strlit("bnez");
    reveal_strlit(" ");
    lemma_lit_space("bnez ", "bnez");
}

proof fn lemma_word_blt()
    ensures
        lit("blt ") == lit("blt") + lit(" "),
{
    reveal_strlit("blt ");
    reveal_strlit("blt");
    reveal_strlit(" ");
    lemma_lit_space("blt ", "blt");
}

proof fn lemma_word_bge()
    ensures
        lit("bge ") == lit("bge") + lit(" "),
{
    reveal_strlit("bge ");
    reveal_strlit("bge");
    reveal_strlit(" ");
    lemma_lit_space("bge ", "bge");
}

proof fn lemma_word_bltu()
    ensures
        lit("bltu ") == lit("bltu") + lit(" "),
{
    reveal_strlit("bltu ");
    reveal_strlit("bltu");
    reveal_strlit(" ");
    lemma_lit_space("bltu ", "bltu");
}

proof fn lemma_word_bgeu()
    ensures
        lit("bgeu ") == lit("bgeu") + lit(" "),
{
    reveal_strlit("bgeu ");
    reveal_strlit("bgeu");
    reveal_strlit(" ");
    lemma_lit_space("bgeu ", "bgeu");
}

proof fn lemma_word_add()
    ensures
        lit("add ") == lit("add") + lit(" "),
{
    reveal_strlit("add ");
    reveal_strlit("add");
    reveal_strlit(" ");
    lemma_lit_space("add ", "add");
}

proof fn lemma_word_and()
    ensures
        lit("and ") == lit("and") + lit(" "),
{
    reveal_strlit("and ");
    reveal_strlit("and");
    reveal_strlit(" ");
    lemma_lit_space("and ", "and");
}

proof fn lemma_word_div()
    ensures
        lit("div ") == lit("div") + lit(" "),
{
    reveal_strlit("div ");
    reveal_strlit("div");
    reveal_strlit(" ");
    lemma_lit_space("div ", "div");
}

proof fn lemma_word_divu()
    ensures
        lit("divu ") == lit("divu") + lit(" "),
{
    reveal_strlit("divu ");
    reveal_strlit("divu");
    reveal_strlit(" ");
    lemma_lit_space("divu ", "divu");
}

proof fn lemma_word_lb()
    ensures
        lit("lb ") == lit("lb") + lit(" "),
{
    reveal_strlit("lb ");
    reveal_strlit("lb");
    reveal_strlit(" ");
    lemma_lit_space("lb ", "lb");
}

proof fn lemma_word_lbu()
    ensures
        lit("lbu ") == lit("lbu") + lit(" "),
{
    reveal_strlit("lbu ");
    reveal_strlit("lbu");
    reveal_strlit(" ");
    lemma_lit_space("lbu ", "lbu");
}

proof fn lemma_word_ld()
    ensures
        lit("ld ") == lit("ld") + lit(" "),
{
    reveal_strlit("ld ");
    reveal_strlit("ld");
    reveal_strlit(" ");
    lemma_lit_space("ld ", "ld");
}

proof fn lemma_word_lh()
    ensures
        lit("lh ") == lit("lh") + lit(" "),
{
    reveal_strlit("lh ");
    reveal_strlit("lh");
    reveal_strlit(" ");
    lemma_lit_space("lh ", "lh");
}

proof fn lemma_word_lhu()
    ensures
        lit("lhu ") == lit("lhu") + lit(" "),
{
    reveal_strlit("lhu ");
    reveal_strlit("lhu");
    reveal_strlit(" ");
    lemma_lit_space("lhu ", "lhu");
}

proof fn lemma_word_lw()
    ensures
        lit("lw ") == lit("lw") + lit(" "),
{
    reveal_strlit("lw ");
    reveal_strlit("lw");
    reveal_strlit(" ");
    lemma_lit_space("lw ", "lw");
}

proof fn lemma_word_lwu()
    ensures
        lit("lwu ") == lit("lwu") + lit(" "),
{
    reveal_strlit("lwu ");
    reveal_strlit("lwu");
    reveal_strlit(" ");
    lemma_lit_space("lwu ", "lwu");
}

proof fn lemma_word_mul()
    ensures
        lit("mul ") == lit("mul") + lit(" "),
{
    reveal_strlit("mul ");
    reveal_strlit("mul");
    reveal_strlit(" ");
    lemma_lit_space("mul ", "mul");
}

proof fn lemma_word_mulh()
    ensures
        lit("mulh ") == lit("mulh") + lit(" "),
{
    reveal_strlit("mulh ");
    reveal_strlit("mulh");
    reveal_strlit(" ");
    lemma_lit_space("mulh ", "mulh");
}

proof fn lemma_word_mulhsu()
    ensures
        lit("mulhsu ") == lit("mulhsu") + lit(" "),
{
    reveal_strlit("mulhsu ");
    reveal_strlit("mulhsu");
    reveal_strlit(" ");
    lemma_lit_space("mulhsu ", "mulhsu");
}

proof fn lemma_word_mulhu()
    ensures
        lit("mulhu ") == lit("mulhu") + lit(" "),
{
    reveal_strlit("mulhu ");
    reveal_strlit("mulhu");
    reveal_strlit(" ");
    lemma_lit_space("mulhu ", "mulhu");
}

proof fn lemma_word_or()
    ensures
        lit("or ") == lit("or") + lit(" "),
{
    reveal_strlit("or ");
    reveal_strlit("or");
    reveal_strlit(" ");
    lemma_lit_space("or ", "or");
}

proof fn lemma_word_rem()
    ensures
        lit("rem ") == lit("rem") + lit(" "),
{
    reveal_strlit("rem ");
    reveal_strlit("rem");
    reveal_strlit(" ");
    lemma_lit_space("rem ", "rem");
}

proof fn lemma_word_remu()
    ensures
        lit("remu ") == lit("remu") + lit(" "),
{
    reveal_strlit("remu ");
    reveal_strlit("remu");
    reveal_strlit(" ");
    lemma_lit_space("remu ", "remu");
}

proof fn lemma_word_sb()
    ensures
        lit("sb ") == lit("sb") + lit(" "),
{
    reveal_strlit("sb ");
    reveal_strlit("sb");
    reveal_strlit(" ");
    lemma_lit_space("sb ", "sb");
}

proof fn lemma_word_sd()
    ensures
        lit("sd ") == lit("sd") + lit(" "),
{
    reveal_strlit("sd ");
    reveal_strlit("sd");
    reveal_strlit(" ");
    lemma_lit_space("sd ", "sd");
}

proof fn lemma_word_sh()
    ensures
        lit("sh ") == lit("sh") + lit(" "),
{
    reveal_strlit("sh ");
    reveal_strlit("sh");
    reveal_strlit(" ");
    lemma_lit_space("sh ", "sh");
}

proof fn lemma_word_sll()
    ensures
        lit("sll ") == lit("sll") + lit(" "),
{
    reveal_strlit("sll ");
    reveal_strlit("sll");
    reveal_strlit(" ");
    lemma_lit_space("sll ", "sll");
}

proof fn lemma_word_slt()
    ensures
        lit("slt ") == lit("slt") + lit(" "),
{
    reveal_strlit("slt ");
    reveal_strlit("slt");
    reveal_strlit(" ");
    lemma_lit_space("slt ", "slt");
}

proof fn lemma_word_sltu()
    ensures
        lit("sltu ") == lit("sltu") + lit(" "),
{
    reveal_strlit("sltu ");
    reveal_strlit("sltu");
    reveal_strlit(" ");
    lemma_lit_space("sltu ", "sltu");
}

proof fn lemma_word_snez()
    ensures
        lit("snez ") == lit("snez") + lit(" "),
{
    reveal_strlit("snez ");
    reveal_strlit("snez");
    reveal_strlit(" ");
    lemma_lit_space("snez ", "snez");
}

proof fn lemma_word_sra()
    ensures
        lit("sra ") == lit("sra") + lit(" "),
{
    reveal_strlit("sra ");
    reveal_strlit("sra");
    reveal_strlit(" ");
    lemma_lit_space("sra ", "sra");
}

proof fn lemma_word_srl()
    ensures
        lit("srl ") == lit("srl") + lit(" "),
{
    reveal_strlit("srl ");
    reveal_strlit("srl");
    reveal_strlit(" ");
    lemma_lit_space("srl ", "srl");
}

proof fn lemma_word_sub()
    ensures
        lit("sub ") == lit("sub") + lit(" "),
{
    reveal_strlit("sub ");
    reveal_strlit("sub");
    reveal_strlit(" ");
    lemma_lit_space("sub ", "sub");
}

proof fn lemma_word_sw()
    ensures
        lit("sw ") == lit("sw") + lit(" "),
{
    reveal_strlit("sw ");
    reveal_strlit("sw");
    reveal_strlit(" ");
    lemma_lit_space("sw ", "sw");
}

proof fn lemma_word_xor()
    ensures
        lit("xor ") == lit("xor") + lit(" "),
{
    reveal_strlit("xor ");
    reveal_strlit("xor");
    reveal_strlit(" ");
    lemma_lit_space("xor ", "xor");
}

proof fn lemma_word_li()
    ensures
        lit("li ") == lit("li") + lit(" "),
{
    reveal_strlit("li ");
    reveal_strlit("li");
    reveal_strlit(" ");
    lemma_lit_space("li ", "li");
}

proof fn lemma_word_mv()
    ensures
        lit("mv ") == lit("mv") + lit(" "),
{
    reveal_strlit("mv ");
    reveal_strlit("mv");
    reveal_strlit(" ");
    lemma_lit_space("mv ", "mv");
}

proof fn lemma_word_addi()
    ensures
        lit("addi ") == lit("addi") + lit(" "),
{
    reveal_strlit("addi ");
    reveal_strlit("addi");
    reveal_strlit(" ");
    lemma_lit_space("addi ", "addi");
}

proof fn lemma_word_slli()
    ensures
        lit("slli ") == lit("slli") + lit(" "),
{
    reveal_strlit("slli ");
    reveal_strlit("slli");
    reveal_strlit(" ");
    lemma_lit_space("slli ", "slli");
}

proof fn lemma_word_slti()
    ensures
        lit("slti ") == lit("slti") + lit(" "),
{
    reveal_strlit("slti ");
    reveal_strlit("slti");
    reveal_strlit(" ");
    lemma_lit_space("slti ", "slti");
}

proof fn lemma_word_seqz()
    ensures
        lit("seqz ") == lit("seqz") + lit(" "),
{
    reveal_strlit("seqz ");
    reveal_strlit("seqz");
    reveal_strlit(" ");
    lemma_lit_space("seqz ", "seqz");
}

proof fn lemma_word_sltiu()
    ensures
        lit("sltiu ") == lit("sltiu") + lit(" "),
{
    reveal_strlit("sltiu ");
    reveal_strlit("sltiu");
    reveal_strlit(" ");
    lemma_lit_space("sltiu ", "sltiu");
}

proof fn lemma_word_not()
    ensures
        lit("not ") == lit("not") + lit(" "),
{
    reveal_strlit("not ");
    reveal_strlit("not");
    reveal_strlit(" ");
    lemma_lit_space("not ", "not");
}

proof fn lemma_word_xori()
    ensures
        lit("xori ") == lit("xori") + lit(" "),
{
    reveal_strlit("xori ");
    reveal_strlit("xori");
    reveal_strlit(" ");
    lemma_lit_space("xori ", "xori");
}

proof fn lemma_word_srli()
    ensures
        lit("srli ") == lit("srli") + lit(" "),
{
    reveal_strlit("srli ");
    reveal_strlit("srli");
    reveal_strlit(" ");
    lemma_lit_space("srli ", "srli");
}

proof fn lemma_word_srai()
    ensures
        lit("srai ") == lit("srai") + lit(" "),
{
    reveal_strlit("srai ");
    reveal_strlit("srai");
    reveal_strlit(" ");
    lemma_lit_space("srai ", "srai");
}

proof fn lemma_word_ori()
    ensures
        lit("ori ") == lit("ori") + lit(" "),
{
    reveal_strlit("ori ");
    reveal_strlit("ori");
    reveal_strlit(" ");
    lemma_lit_space("ori ", "ori");
}

proof fn lemma_word_andi()
    ensures
        lit("andi ") == lit("andi") + lit(" "),
{
    reveal_strlit("andi ");
    reveal_strlit("andi");
    reveal_strlit(" ");
    lemma_lit_space("andi ", "andi");
}

proof fn lemma_word_sext_w()
    ensures
        lit("sext.w ") == lit("sext.w") + lit(" "),
{
    reveal_strlit("sext.w ");
    reveal_strlit("sext.w");
    reveal_strlit(" ");
    lemma_lit_space("sext.w ", "sext.w");
}

proof fn lemma_word_addiw()
    ensures
        lit("addiw ") == lit("addiw") + lit(" "),
{
    reveal_strlit("addiw ");
    reveal_strlit("addiw");
    reveal_strlit(" ");
    lemma_lit_space("addiw ", "addiw");
}

proof fn lemma_word_slliw()
    ensures
        lit("slliw ") == lit("slliw") + lit(" "),
{
    reveal_strlit("slliw ");
    reveal_strlit("slliw");
    reveal_strlit(" ");
    lemma_lit_space("slliw ", "slliw");
}

proof fn lemma_word_srliw()
    ensures
        lit("srliw ") == lit("srliw") + lit(" "),
{
    reveal_strlit("srliw ");
    reveal_strlit("srliw");
    reveal_strlit(" ");
    lemma_lit_space("srliw ", "srliw");
}

proof fn lemma_word_sraiw()
    ensures
        lit("sraiw ") == lit("sraiw") + lit(" "),
{
    reveal_strlit("sraiw ");
    reveal_strlit("sraiw");
    reveal_strlit(" ");
    lemma_lit_space("sraiw ", "sraiw");
}

proof fn lemma_word_addw()
    ensures
        lit("addw ") == lit("addw") + lit(" "),
{
    reveal_strlit("addw ");
    reveal_strlit("addw");
    reveal_strlit(" ");
    lemma_lit_space("addw ", "addw");
}

proof fn lemma_word_subw()
    ensures
        lit("subw ") == lit("subw") + lit(" "),
{
    reveal_strlit("subw ");
    reveal_strlit("subw");
    reveal_strlit(" ");
    lemma_lit_space("subw ", "subw");
}

proof fn lemma_word_sllw()
    ensures
        lit("sllw ") == lit("sllw") + lit(" "),
{
    reveal_strlit("sllw ");
    reveal_strlit("sllw");
    reveal_strlit(" ");
    lemma_lit_space("sllw ", "sllw");
}

proof fn lemma_word_srlw()
    ensures
        lit("srlw ") == lit("srlw") + lit(" "),
{
    reveal_strlit("srlw ");
    reveal_strlit("srlw");
    reveal_strlit(" ");
    lemma_lit_space("srlw ", "srlw");
}

proof fn lemma_word_sraw()
    ensures
        lit("sraw ") == lit("sraw") + lit(" "),
{
    reveal_strlit("sraw ");
    reveal_strlit("sraw");
    reveal_strlit(" ");
    lemma_lit_space("sraw ", "sraw");
}

proof fn lemma_word_mulw()
    ensures
        lit("mulw ") == lit("mulw") + lit(" "),
{
    reveal_strlit("mulw ");
    reveal_strlit("mulw");
    reveal_strlit(" ");
    lemma_lit_space("mulw ", "mulw");
}

proof fn lemma_word_divw()
    ensures
        lit("divw ") == lit("divw") + lit(" "),
{
    reveal_strlit("divw ");
    reveal_strlit("divw");
    reveal_strlit(" ");
    lemma_lit_space("divw ", "divw");
}

proof fn lemma_word_divuw()
    ensures
        lit("divuw ") == lit("divuw") + lit(" "),
{
    reveal_strlit("divuw ");
    reveal_strlit("divuw");
    reveal_strlit(" ");
    lemma_lit_space("divuw ", "divuw");
}

proof fn lemma_word_remw()
    ensures
        lit("remw ") == lit("remw") + lit(" "),
{
    reveal_strlit("remw ");
    reveal_strlit("remw");
    reveal_strlit(" ");
    lemma_lit_space("remw ", "remw");
}

proof fn lemma_word_remuw()
    ensures
        lit("remuw ") == lit("remuw") + lit(" "),
{
    reveal_strlit("remuw ");
    reveal_strlit("remuw");
    reveal_strlit(" ");
    lemma_lit_space("remuw ", "remuw");
}

/// A text that starts with `word` still does with more after it; a
/// one-operand form starts with its operation and a space.
proof fn lemma_starts_more(t: Seq<u8>, more: Seq<u8>, op: Seq<u8>, a: Seq<u8>, word: Seq<u8>)
    requires
        word == op + lit(" "),
    ensures
        starts_with(t, word) ==> starts_with(t + more, word),
        starts_with(form1(op, a), word),
{
    if starts_with(t, word) {
        assert((t + more).subrange(0, word.len() as int) =~= t.subrange(0, word.len() as int));
    }
    assert(form1(op, a) =~= word + a);
    assert((word + a).subrange(0, word.len() as int) =~= word);
}

/// An ASCII word made of three parts, then a space.
proof fn lemma_lit3_space(w: &str, a: &str, b: &str, c: &str)
    requires
        vstd::string::is_ascii(w),
        vstd::string::is_ascii(a),
        vstd::string::is_ascii(b),
        vstd::string::is_ascii(c),
        vstd::string::is_ascii(" "),
        w@ =~= a@ + b@ + c@ + " "@,
    ensures
        lit(w) == lit(a) + (lit(b) + lit(c)) + lit(" "),
{
    broadcast use vstd::string::is_ascii_spec_bytes;

    assert(lit(w) =~= lit(a) + (lit(b) + lit(c)) + lit(" "));
}

proof fn lemma_word_lui()
    ensures
        lit("lui ") == lit("lui") + lit(" "),
{
    reveal_strlit("lui ");
    reveal_strlit("lui");
    reveal_strlit(" ");
    lemma_lit_space("lui ", "lui");
}

proof fn lemma_word_auipc()
    ensures
        lit("auipc ") == lit("auipc") + lit(" "),
{
    reveal_strlit("auipc ");
    reveal_strlit("auipc");
    reveal_strlit(" ");
    lemma_lit_space("auipc ", "auipc");
}

proof fn lemma_word_j()
    ensures
        lit("j ") == lit("j") + lit(" "),
{
    reveal_strlit("j ");
    reveal_strlit("j");
    reveal_strlit(" ");
    lemma_lit_space("j ", "j");
}

proof fn lemma_word_jal()
    ensures
        lit("jal ") == lit("jal") + lit(" "),
{
    reveal_strlit("jal ");
    reveal_strlit("jal");
    reveal_strlit(" ");
    lemma_lit_space("jal ", "jal");
}

proof fn lemma_word_jr()
    ensures
        lit("jr ") == lit("jr") + lit(" "),
{
    reveal_strlit("jr ");
    reveal_strlit("jr");
    reveal_strlit(" ");
    lemma_lit_space("jr ", "jr");
}

proof fn lemma_word_jalr()
    ensures
        lit("jalr ") == lit("jalr") + lit(" "),
{
    reveal_strlit("jalr ");
    reveal_strlit("jalr");
    reveal_strlit(" ");
    lemma_lit_space("jalr ", "jalr");
}

proof fn lemma_word_csrrw()
    ensures
        lit("csrrw ") == lit("csrrw") + lit(" "),
{
    reveal_strlit("csrrw ");
    reveal_strlit("csrrw");
    reveal_strlit(" ");
    lemma_lit_space("csrrw ", "csrrw");
}

proof fn lemma_word_csrrs()
    ensures
        lit("csrrs ") == lit("csrrs") + lit(" "),
{
    reveal_strlit("csrrs ");
    reveal_strlit("csrrs");
    reveal_strlit(" ");
    lemma_lit_space("csrrs ", "csrrs");
}

proof fn lemma_word_csrrc()
    ensures
        lit("csrrc ") == lit("csrrc") + lit(" "),
{
    reveal_strlit("csrrc ");
    reveal_strlit("csrrc");
    reveal_strlit(" ");
    lemma_lit_space("csrrc ", "csrrc");
}

proof fn lemma_word_csrrwi()
    ensures
        lit("csrrwi ") == lit("csrrwi") + lit(" "),
{
    reveal_strlit("csrrwi ");
    reveal_strlit("csrrwi");
    reveal_strlit(" ");
    lemma_lit_space("csrrwi ", "csrrwi");
}

proof fn lemma_word_csrrsi()
    ensures
        lit("csrrsi ") == lit("csrrsi") + lit(" "),
{
    reveal_strlit("csrrsi ");
    reveal_strlit("csrrsi");
    reveal_strlit(" ");
    lemma_lit_space("csrrsi ", "csrrsi");
}

proof fn lemma_word_csrrci()
    ensures
        lit("csrrci ") == lit("csrrci") + lit(" "),
{
    reveal_strlit("csrrci ");
    reveal_strlit("csrrci");
    reveal_strlit(" ");
    lemma_lit_space("csrrci ", "csrrci");
}

proof fn lemma_word_amoswap_w()
    ensures
        lit("amoswap.w ") == lit("amoswap") + (lit(".w") + lit("")) + lit(" "),
{
    reveal_strlit("amoswap.w ");
    reveal_strlit("amoswap");
    reveal_strlit(".w");
    reveal_strlit("");
    reveal_strlit(" ");
    lemma_lit3_space("amoswap.w ", "amoswap", ".w", "");
}

proof fn lemma_word_amoswap_d()
    ensures
        lit("amoswap.d ") == lit("amoswap") + (lit(".d") + lit("")) + lit(" "),
{
    reveal_strlit("amoswap.d ");
    reveal_strlit("amoswap");
    reveal_strlit(".d");
    reveal_strlit("");
    reveal_strlit(" ");
    lemma_lit3_space("amoswap.d ", "amoswap", ".d", "");
}

proof fn lemma_word_amoadd_w()
    ensures
        lit("amoadd.w ") == lit("amoadd") + (lit(".w") + lit("")) + lit(" "),
{
    reveal_strlit("amoadd.w ");
    reveal_strlit("amoadd");
    reveal_strlit(".w");
    reveal_strlit("");
    reveal_strlit(" ");
    lemma_lit3_space("amoadd.w ", "amoadd", ".w", "");
}

proof fn lemma_word_amoadd_d()
    ensures
        lit("amoadd.d ") == lit("amoadd") + (lit(".d") + lit("")) + lit(" "),
{
    reveal_strlit("amoadd.d ");
    reveal_strlit("amoadd");
    reveal_strlit(".d");
    reveal_strlit("");
    reveal_strlit(" ");
    lemma_lit3_space("amoadd.d ", "amoadd", ".d", "");
}

proof fn lemma_word_amoxor_w()
    ensures
        lit("amoxor.w ") == lit("amoxor") + (lit(".w") + lit("")) + lit(" "),
{
    reveal_strlit("amoxor.w ");
    reveal_strlit("amoxor");
    reveal_strlit(".w");
    reveal_strlit("");
    reveal_strlit(" ");
    lemma_lit3_space("amoxor.w ", "amoxor", ".w", "");
}

proof fn lemma_word_amoxor_d()
    ensures
        lit("amoxor.d ") == lit("amoxor") + (lit(".d") + lit("")) + lit(" "),
{
    reveal_strlit("amoxor.d ");
    reveal_strlit("amoxor");
    reveal_strlit(".d");
    reveal_strlit("");
    reveal_strlit(" ");
    lemma_lit3_space("amoxor.d ", "amoxor", ".d", "");
}

proof fn lemma_word_amoand_w()
    ensures
        lit("amoand.w ") == lit("amoand") + (lit(".w") + lit("")) + lit(" "),
{
    reveal_strlit("amoand.w ");
    reveal_strlit("amoand");
    reveal_strlit(".w");
    reveal_strlit("");
    reveal_strlit(" ");
    lemma_lit3_space("amoand.w ", "amoand", ".w", "");
}

proof fn lemma_word_amoand_d()
    ensures
        lit("amoand.d ") == lit("amoand") + (lit(".d") + lit("")) + lit(" "),
{
    reveal_strlit("amoand.d ");
    reveal_strlit("amoand");
    reveal_strlit(".d");
    reveal_strlit("");
    reveal_strlit(" ");
    lemma_lit3_space("amoand.d ", "amoand", ".d", "");
}

proof fn lemma_word_amoor_w()
    ensures
        lit("amoor.w ") == lit("amoor") + (lit(".w") + lit("")) + lit(" "),
{
    reveal_strlit("amoor.w ");
    reveal_strlit("amoor");
    reveal_strlit(".w");
    reveal_strlit("");
    reveal_strlit(" ");
    lemma_lit3_space("amoor.w ", "amoor", ".w", "");
}

proof fn lemma_word_amoor_d()
    ensures
        lit("amoor.d ") == lit("amoor") + (lit(".d") + lit("")) + lit(" "),
{
    reveal_strlit("amoor.d ");
    reveal_strlit("amoor");
    reveal_strlit(".d");
    reveal_strlit("");
    reveal_strlit(" ");
    lemma_lit3_space("amoor.d ", "amoor", ".d", "");
}

proof fn lemma_word_amomin_w()
    ensures
        lit("amomin.w ") == lit("amomin") + (lit(".w") + lit("")) + lit(" "),
{
    reveal_strlit("amomin.w ");
    reveal_strlit("amomin");
    reveal_strlit(".w");
    reveal_strlit("");
    reveal_strlit(" ");
    lemma_lit3_space("amomin.w ", "amomin", ".w", "");
}

proof fn lemma_word_amomin_d()
    ensures
        lit("amomin.d ") == lit("amomin") + (lit(".d") + lit("")) + lit(" "),
{
    reveal_strlit("amomin.d ");
    reveal_strlit("amomin");
    reveal_strlit(".d");
    reveal_strlit("");
    reveal_strlit(" ");
    lemma_lit3_space("amomin.d ", "amomin", ".d", "");
}

proof fn lemma_word_amomax_w()
    ensures
        lit("amomax.w ") == lit("amomax") + (lit(".w") + lit("")) + lit(" "),
{
    reveal_strlit("amomax.w ");
    reveal_strlit("amomax");
    reveal_strlit(".w");
    reveal_strlit("");
    reveal_strlit(" ");
    lemma_lit3_space("amomax.w ", "amomax", ".w", "");
}

proof fn lemma_word_amomax_d()
    ensures
        lit("amomax.d ") == lit("amomax") + (lit(".d") + lit("")) + lit(" "),
{
    reveal_strlit("amomax.d ");
    reveal_strlit("amomax");
    reveal_strlit(".d");
    reveal_strlit("");
    reveal_strlit(" ");
    lemma_lit3_space("amomax.d ", "amomax", ".d", "");
}

proof fn lemma_word_amominu_w()
    ensures
        lit("amominu.w ") == lit("amominu") + (lit(".w") + lit("")) + lit(" "),
{
    reveal_strlit("amominu.w ");
    reveal_strlit("amominu");
    reveal_strlit(".w");
    reveal_strlit("");
    reveal_strlit(" ");
    lemma_lit3_space("amominu.w ", "amominu", ".w", "");
}

proof fn lemma_word_amominu_d()
    ensures
        lit("amominu.d ") == lit("amominu") + (lit(".d") + lit("")) + lit(" "),
{
    reveal_strlit("amominu.d ");
    reveal_strlit("amominu");
    reveal_strlit(".d");
    reveal_strlit("");
    reveal_strlit(" ");
    lemma_lit3_space("amominu.d ", "amominu", ".d", "");
}

proof fn lemma_word_amomaxu_w()
    ensures
        lit("amomaxu.w ") == lit("amomaxu") + (lit(".w") + lit("")) + lit(" "),
{
    reveal_strlit("amomaxu.w ");
    reveal_strlit("amomaxu");
    reveal_strlit(".w");
    reveal_strlit("");
    reveal_strlit(" ");
    lemma_lit3_space("amomaxu.w ", "amomaxu", ".w", "");
}

proof fn lemma_word_amomaxu_d()
    ensures
        lit("amomaxu.d ") == lit("amomaxu") + (lit(".d") + lit("")) + lit(" "),
{
    reveal_strlit("amomaxu.d ");
    reveal_strlit("amomaxu");
    reveal_strlit(".d");
    reveal_strlit("");
    reveal_strlit(" ");
    lemma_lit3_space("amomaxu.d ", "amomaxu", ".d", "");
}

proof fn lemma_word_lr_w()
    ensures
        lit("lr.w ") == lit("lr") + (lit(".w") + lit("")) + lit(" "),
{
    reveal_strlit("lr.w ");
    reveal_strlit("lr");
    reveal_strlit(".w");
    reveal_strlit("");
    reveal_strlit(" ");
    lemma_lit3_space("lr.w ", "lr", ".w", "");
}

proof fn lemma_word_lr_d()
    ensures
        lit("lr.d ") == lit("lr") + (lit(".d") + lit("")) + lit(" "),
{
    reveal_strlit("lr.d ");
    reveal_strlit("lr");
    reveal_strlit(".d");
    reveal_strlit("");
    reveal_strlit(" ");
    lemma_lit3_space("lr.d ", "lr", ".d", "");
}

proof fn lemma_word_sc_w()
    ensures
        lit("sc.w ") == lit("sc") + (lit(".w") + lit("")) + lit(" "),
{
    reveal_strlit("sc.w ");
    reveal_strlit("sc");
    reveal_strlit(".w");
    reveal_strlit("");
    reveal_strlit(" ");
    lemma_lit3_space("sc.w ", "sc", ".w", "");
}

proof fn lemma_word_sc_d()
    ensures
        lit("sc.d ") == lit("sc") + (lit(".d") + lit("")) + lit(" "),
{
    reveal_strlit("sc.d ");
    reveal_strlit("sc");
    reveal_strlit(".d");
    reveal_strlit("");
    reveal_strlit(" ");
    lemma_lit3_space("sc.d ", "sc", ".d", "");
}

proof fn lemma_word_c_addi4spn()
    ensures
        lit("c.addi4spn ") == lit("c.addi4spn") + lit(" "),
{
    reveal_strlit("c.addi4spn ");
    reveal_strlit("c.addi4spn");
    reveal_strlit(" ");
    lemma_lit_space("c.addi4spn ", "c.addi4spn");
}

proof fn lemma_word_c_lw()
    ensures
        lit("c.lw ") == lit("c.lw") + lit(" "),
{
    reveal_strlit("c.lw ");
    reveal_strlit("c.lw");
    reveal_strlit(" ");
    lemma_lit_space("c.lw ", "c.lw");
}

proof fn lemma_word_c_ld()
    ensures
        lit("c.ld ") == lit("c.ld") + lit(" "),
{
    reveal_strlit("c.ld ");
    reveal_strlit("c.ld");
    reveal_strlit(" ");
    lemma_lit_space("c.ld ", "c.ld");
}

proof fn lemma_word_c_sw()
    ensures
        lit("c.sw ") == lit("c.sw") + lit(" "),
{
    reveal_strlit("c.sw ");
    reveal_strlit("c.sw");
    reveal_strlit(" ");
    lemma_lit_space("c.sw ", "c.sw");
}

proof fn lemma_word_c_sd()
    ensures
        lit("c.sd ") == lit("c.sd") + lit(" "),
{
    reveal_strlit("c.sd ");
    reveal_strlit("c.sd");
    reveal_strlit(" ");
    lemma_lit_space("c.sd ", "c.sd");
}

proof fn lemma_word_c_addi()
    ensures
        lit("c.addi ") == lit("c.addi") + lit(" "),
{
    reveal_strlit("c.addi ");
    reveal_strlit("c.addi");
    reveal_strlit(" ");
    lemma_lit_space("c.addi ", "c.addi");
}

proof fn lemma_word_c_addiw()
    ensures
        lit("c.addiw ") == lit("c.addiw") + lit(" "),
{
    reveal_strlit("c.addiw ");
    reveal_strlit("c.addiw");
    reveal_strlit(" ");
    lemma_lit_space("c.addiw ", "c.addiw");
}

proof fn lemma_word_c_li()
    ensures
        lit("c.li ") == lit("c.li") + lit(" "),
{
    reveal_strlit("c.li ");
    reveal_strlit("c.li");
    reveal_strlit(" ");
    lemma_lit_space("c.li ", "c.li");
}

proof fn lemma_word_c_addi16sp()
    ensures
        lit("c.addi16sp ") == lit("c.addi16sp") + lit(" "),
{
    reveal_strlit("c.addi16sp ");
    reveal_strlit("c.addi16sp");
    reveal_strlit(" ");
    lemma_lit_space("c.addi16sp ", "c.addi16sp");
}

proof fn lemma_word_c_lui()
    ensures
        lit("c.lui ") == lit("c.lui") + lit(" "),
{
    reveal_strlit("c.lui ");
    reveal_strlit("c.lui");
    reveal_strlit(" ");
    lemma_lit_space("c.lui ", "c.lui");
}

proof fn lemma_word_c_j()
    ensures
        lit("c.j ") == lit("c.j") + lit(" "),
{
    reveal_strlit("c.j ");
    reveal_strlit("c.j");
    reveal_strlit(" ");
    lemma_lit_space("c.j ", "c.j");
}

proof fn lemma_word_c_beqz()
    ensures
        lit("c.beqz ") == lit("c.beqz") + lit(" "),
{
    reveal_strlit("c.beqz ");
    reveal_strlit("c.beqz");
    reveal_strlit(" ");
    lemma_lit_space("c.beqz ", "c.beqz");
}

proof fn lemma_word_c_bnez()
    ensures
        lit("c.bnez ") == lit("c.bnez") + lit(" "),
{
    reveal_strlit("c.bnez ");
    reveal_strlit("c.bnez");
    reveal_strlit(" ");
    lemma_lit_space("c.bnez ", "c.bnez");
}

proof fn lemma_word_c_srli()
    ensures
        lit("c.srli ") == lit("c.srli") + lit(" "),
{
    reveal_strlit("c.srli ");
    reveal_strlit("c.srli");
    reveal_strlit(" ");
    lemma_lit_space("c.srli ", "c.srli");
}

proof fn lemma_word_c_srai()
    ensures
        lit("c.srai ") == lit("c.srai") + lit(" "),
{
    reveal_strlit("c.srai ");
    reveal_strlit("c.srai");
    reveal_strlit(" ");
    lemma_lit_space("c.srai ", "c.srai");
}

proof fn lemma_word_c_andi()
    ensures
        lit("c.andi ") == lit("c.andi") + lit(" "),
{
    reveal_strlit("c.andi ");
    reveal_strlit("c.andi");
    reveal_strlit(" ");
    lemma_lit_space("c.andi ", "c.andi");
}

proof fn lemma_word_c_sub()
    ensures
        lit("c.sub ") == lit("c.sub") + lit(" "),
{
    reveal_strlit("c.sub ");
    reveal_strlit("c.sub");
    reveal_strlit(" ");
    lemma_lit_space("c.sub ", "c.sub");
}

proof fn lemma_word_c_xor()
    ensures
        lit("c.xor ") == lit("c.xor") + lit(" "),
{
    reveal_strlit("c.xor ");
    reveal_strlit("c.xor");
    reveal_strlit(" ");
    lemma_lit_space("c.xor ", "c.xor");
}

proof fn lemma_word_c_or()
    ensures
        lit("c.or ") == lit("c.or") + lit(" "),
{
    reveal_strlit("c.or ");
    reveal_strlit("c.or");
    reveal_strlit(" ");
    lemma_lit_space("c.or ", "c.or");
}

proof fn lemma_word_c_and()
    ensures
        lit("c.and ") == lit("c.and") + lit(" "),
{
    reveal_strlit("c.and ");
    reveal_strlit("c.and");
    reveal_strlit(" ");
    lemma_lit_space("c.and ", "c.and");
}

proof fn lemma_word_c_subw()
    ensures
        lit("c.subw ") == lit("c.subw") + lit(" "),
{
    reveal_strlit("c.subw ");
    reveal_strlit("c.subw");
    reveal_strlit(" ");
    lemma_lit_space("c.subw ", "c.subw");
}

proof fn lemma_word_c_addw()
    ensures
        lit("c.addw ") == lit("c.addw") + lit(" "),
{
    reveal_strlit("c.addw ");
    reveal_strlit("c.addw");
    reveal_strlit(" ");
    lemma_lit_space("c.addw ", "c.addw");
}

proof fn lemma_word_c_slli()
    ensures
        lit("c.slli ") == lit("c.slli") + lit(" "),
{
    reveal_strlit("c.slli ");
    reveal_strlit("c.slli");
    reveal_strlit(" ");
    lemma_lit_space("c.slli ", "c.slli");
}

proof fn lemma_word_c_lwsp()
    ensures
        lit("c.lwsp ") == lit("c.lwsp") + lit(" "),
{
    reveal_strlit("c.lwsp ");
    reveal_strlit("c.lwsp");
    reveal_strlit(" ");
    lemma_lit_space("c.lwsp ", "c.lwsp");
}

proof fn lemma_word_c_ldsp()
    ensures
        lit("c.ldsp ") == lit("c.ldsp") + lit(" "),
{
    reveal_strlit("c.ldsp ");
    reveal_strlit("c.ldsp");
    reveal_strlit(" ");
    lemma_lit_space("c.ldsp ", "c.ldsp");
}

proof fn lemma_word_c_jr()
    ensures
        lit("c.jr ") == lit("c.jr") + lit(" "),
{
    reveal_strlit("c.jr ");
    reveal_strlit("c.jr");
    reveal_strlit(" ");
    lemma_lit_space("c.jr ", "c.jr");
}

proof fn lemma_word_c_mv()
    ensures
        lit("c.mv ") == lit("c.mv") + lit(" "),
{
    reveal_strlit("c.mv ");
    reveal_strlit("c.mv");
    reveal_strlit(" ");
    lemma_lit_space("c.mv ", "c.mv");
}

proof fn lemma_word_c_jalr()
    ensures
        lit("c.jalr ") == lit("c.jalr") + lit(" "),
{
    reveal_strlit("c.jalr ");
    reveal_strlit("c.jalr");
    reveal_strlit(" ");
    lemma_lit_space("c.jalr ", "c.jalr");
}

proof fn lemma_word_c_add()
    ensures
        lit("c.add ") == lit("c.add") + lit(" "),
{
    reveal_strlit("c.add ");
    reveal_strlit("c.add");
    reveal_strlit(" ");
    lemma_lit_space("c.add ", "c.add");
}

proof fn lemma_word_c_swsp()
    ensures
        lit("c.swsp ") == lit("c.swsp") + lit(" "),
{
    reveal_strlit("c.swsp ");
    reveal_strlit("c.swsp");
    reveal_strlit(" ");
    lemma_lit_space("c.swsp ", "c.swsp");
}

proof fn lemma_word_c_sdsp()
    ensures
        lit("c.sdsp ") == lit("c.sdsp") + lit(" "),
{
    reveal_strlit("c.sdsp ");
    reveal_strlit("c.sdsp");
    reveal_strlit(" ");
    lemma_lit_space("c.sdsp ", "c.sdsp");
}

proof fn lemma_starts_mem(op: Seq<u8>, a: Seq<u8>, off: Seq<u8>, base: Seq<u8>, word: Seq<u8>)
    requires
        word == op + lit(" "),
    ensures
        starts_with(form_mem(op, a, off, base), word),
{
    let rest = a + lit(", ") + off + lit("(") + base + lit(")");
    assert(form_mem(op, a, off, base) =~= word + rest);
    assert((word + rest).subrange(0, word.len() as int) =~= word);
}

/// The conditional branches (major opcode `0x63`) are named by their funct3
/// field as the RISC-V base ISA names them: 0 `beq`, 1 `bne`, 4 `blt`,
/// 5 `bge`, 6 `bltu`, 7 `bgeu` (`beqz`/`bnez` when `rs2` is `zero`), each
/// followed by a space; funct3 2 and 3 are no branch and print as `.word`.
pub proof fn law_branch_mnemonics(insn: u32, pc: u64)
    requires
        insn & 0x7f == 0x63,
    ensures
        (insn >> 12) & 0x7 == 0 && (insn >> 20) & 0x1f != 0 ==> starts_with(insn32_text(insn, pc), lit("beq ")),
        (insn >> 12) & 0x7 == 0 && (insn >> 20) & 0x1f == 0 ==> starts_with(insn32_text(insn, pc), lit("beqz ")),
        (insn >> 12) & 0x7 == 1 && (insn >> 20) & 0x1f != 0 ==> starts_with(insn32_text(insn, pc), lit("bne ")),
        (insn >> 12) & 0x7 == 1 && (insn >> 20) & 0x1f == 0 ==> starts_with(insn32_text(insn, pc), lit("bnez ")),
        (insn >> 12) & 0x7 == 4 ==> starts_with(insn32_text(insn, pc), lit("blt ")),
        (insn >> 12) & 0x7 == 5 ==> starts_with(insn32_text(insn, pc), lit("bge ")),
        (insn >> 12) & 0x7 == 6 ==> starts_with(insn32_text(insn, pc), lit("bltu ")),
        (insn >> 12) & 0x7 == 7 ==> starts_with(insn32_text(insn, pc), lit("bgeu ")),
        (insn >> 12) & 0x7 == 2 || (insn >> 12) & 0x7 == 3 ==> starts_with(insn32_text(insn, pc), lit(".word ")),
{
    let f3 = (insn >> 12) & 0x7;
    let rs1 = (insn >> 15) & 0x1f;
    let rs2 = (insn >> 20) & 0x1f;
    let t = hex0x(target(pc, b_imm(insn)) as nat);
    let a = reg_name(rs1);
    let b = reg_name(rs2);
    assert(insn32_text(insn, pc) == branch_text(insn, pc, f3, rs1, rs2));
    if f3 == 0 && rs2 != 0 {
        lemma_word_beq();
        lemma_starts_form(lit("beq"), a, b, t, lit("beq "));
    } else if f3 == 0 {
        lemma_word_beqz();
        lemma_starts_form(lit("beqz"), a, t, t, lit("beqz "));
    } else if f3 == 1 && rs2 != 0 {
        lemma_word_bne();
        lemma_starts_form(lit("bne"), a, b, t, lit("bne "));
    } else if f3 == 1 {
        lemma_word_bnez();
        lemma_starts_form(lit("bnez"), a, t, t, lit("bnez "));
    } else if f3 == 4 {
        lemma_word_blt();
        lemma_starts_form(lit("blt"), a, b, t, lit("blt "));
    } else if f3 == 5 {
        lemma_word_bge();
        lemma_starts_form(lit("bge"), a, b, t, lit("bge "));
    } else if f3 == 6 {
        lemma_word_bltu();
        lemma_starts_form(lit("bltu"), a, b, t, lit("bltu "));
    } else if f3 == 7 {
        lemma_word_bgeu();
        lemma_starts_form(lit("bgeu"), a, b, t, lit("bgeu "));
    } else {
        let z = seq![48u8, 120u8] + zpad(8, hex(insn as nat));
        assert(word_text(insn) =~= lit(".word ") + z);
        assert((lit(".word ") + z).subrange(0, lit(".word ").len() as int) =~= lit(".word "));
    }
}

/// Through the entry point: four bytes whose low two bits are set form a
/// 32-bit instruction, so a branch word disassembles under the names above.
pub proof fn law_branch_entry(pc: u64, data: Seq<u8>)
    requires
        data.len() >= 4,
        le16(data) & 0x3 == 0x3,
        le32(data) & 0x7f == 0x63,
    ensures
        disassembly(pc, data).1 == 4,
        disassembly(pc, data).0 == insn32_text(le32(data), pc),
        (le32(data) >> 12) & 0x7 == 4 ==> starts_with(disassembly(pc, data).0, lit("blt ")),
        (le32(data) >> 12) & 0x7 == 5 ==> starts_with(disassembly(pc, data).0, lit("bge ")),
{
    law_branch_mnemonics(le32(data), pc);
}

/// Loads (major opcode `0x03`) are named by funct3 as the base ISA names
/// them: 0 `lb`, 1 `lh`, 2 `lw`, 3 `ld`, 4 `lbu`, 5 `lhu`, 6 `lwu`.
pub proof fn law_load_mnemonics(insn: u32, pc: u64)
    requires
        insn & 0x7f == 0x03,
    ensures
        (insn >> 12) & 0x7 == 0 ==> starts_with(insn32_text(insn, pc), lit("lb ")),
        (insn >> 12) & 0x7 == 1 ==> starts_with(insn32_text(insn, pc), lit("lh ")),
        (insn >> 12) & 0x7 == 2 ==> starts_with(insn32_text(insn, pc), lit("lw ")),
        (insn >> 12) & 0x7 == 3 ==> starts_with(insn32_text(insn, pc), lit("ld ")),
        (insn >> 12) & 0x7 == 4 ==> starts_with(insn32_text(insn, pc), lit("lbu ")),
        (insn >> 12) & 0x7 == 5 ==> starts_with(insn32_text(insn, pc), lit("lhu ")),
        (insn >> 12) & 0x7 == 6 ==> starts_with(insn32_text(insn, pc), lit("lwu ")),
{
    let f3 = (insn >> 12) & 0x7;
    let rd = (insn >> 7) & 0x1f;
    let rs1 = (insn >> 15) & 0x1f;
    assert(insn32_text(insn, pc) == load_text(insn, f3, rd, rs1));
    if f3 == 0 {
        lemma_word_lb();
        lemma_starts_mem(lit("lb"), reg_name(rd), sdec(i_imm(insn) as int), reg_name(rs1), lit("lb "));
    }
    if f3 == 1 {
        lemma_word_lh();
        lemma_starts_mem(lit("lh"), reg_name(rd), sdec(i_imm(insn) as int), reg_name(rs1), lit("lh "));
    }
    if f3 == 2 {
        lemma_word_lw();
        lemma_starts_mem(lit("lw"), reg_name(rd), sdec(i_imm(insn) as int), reg_name(rs1), lit("lw "));
    }
    if f3 == 3 {
        lemma_word_ld();
        lemma_starts_mem(lit("ld"), reg_name(rd), sdec(i_imm(insn) as int), reg_name(rs1), lit("ld "));
    }
    if f3 == 4 {
        lemma_word_lbu();
        lemma_starts_mem(lit("lbu"), reg_name(rd), sdec(i_imm(insn) as int), reg_name(rs1), lit("lbu "));
    }
    if f3 == 5 {
        lemma_word_lhu();
        lemma_starts_mem(lit("lhu"), reg_name(rd), sdec(i_imm(insn) as int), reg_name(rs1), lit("lhu "));
    }
    if f3 == 6 {
        lemma_word_lwu();
        lemma_starts_mem(lit("lwu"), reg_name(rd), sdec(i_imm(insn) as int), reg_name(rs1), lit("lwu "));
    }
}

/// Stores (major opcode `0x23`) are named by funct3: 0 `sb`, 1 `sh`, 2 `sw`, 3 `sd`.
pub proof fn law_store_mnemonics(insn: u32, pc: u64)
    requires
        insn & 0x7f == 0x23,
    ensures
        (insn >> 12) & 0x7 == 0 ==> starts_with(insn32_text(insn, pc), lit("sb ")),
        (insn >> 12) & 0x7 == 1 ==> starts_with(insn32_text(insn, pc), lit("sh ")),
        (insn >> 12) & 0x7 == 2 ==> starts_with(insn32_text(insn, pc), lit("sw ")),
        (insn >> 12) & 0x7 == 3 ==> starts_with(insn32_text(insn, pc), lit("sd ")),
{
    let f3 = (insn >> 12) & 0x7;
    let rs1 = (insn >> 15) & 0x1f;
    let rs2 = (insn >> 20) & 0x1f;
    assert(insn32_text(insn, pc) == store_text(insn, f3, rs1, rs2));
    if f3 == 0 {
        lemma_word_sb();
        lemma_starts_mem(lit("sb"), reg_name(rs2), sdec(s_imm(insn) as int), reg_name(rs1), lit("sb "));
    }
    if f3 == 1 {
        lemma_word_sh();
        lemma_starts_mem(lit("sh"), reg_name(rs2), sdec(s_imm(insn) as int), reg_name(rs1), lit("sh "));
    }
    if f3 == 2 {
        lemma_word_sw();
        lemma_starts_mem(lit("sw"), reg_name(rs2), sdec(s_imm(insn) as int), reg_name(rs1), lit("sw "));
    }
    if f3 == 3 {
        lemma_word_sd();
        lemma_starts_mem(lit("sd"), reg_name(rs2), sdec(s_imm(insn) as int), reg_name(rs1), lit("sd "));
    }
}

/// Register-register operations (major opcode `0x33`) are named by funct7
/// and funct3 as the base ISA and the M extension name them: funct7 0 gives
/// `add`, `sll`, `slt`, `sltu` (`snez` when `rs1` is `zero`), `xor`, `srl`,
/// `or`, `and`; funct7 `0x20` gives `sub` and `sra`; funct7 1 gives `mul`,
/// `mulh`, `mulhsu`, `mulhu`, `div`, `divu`, `rem`, `remu`.
#[verifier::rlimit(40)]
pub proof fn law_op_mnemonics(insn: u32, pc: u64)
    requires
        insn & 0x7f == 0x33,
    ensures
        (insn >> 25) == 0 && (insn >> 12) & 0x7 == 0 ==> starts_with(insn32_text(insn, pc), lit("add ")),
        (insn >> 25) == 0 && (insn >> 12) & 0x7 == 1 ==> starts_with(insn32_text(insn, pc), lit("sll ")),
        (insn >> 25) == 0 && (insn >> 12) & 0x7 == 2 ==> starts_with(insn32_text(insn, pc), lit("slt ")),
        (insn >> 25) == 0 && (insn >> 12) & 0x7 == 3 && (insn >> 15) & 0x1f != 0 ==> starts_with(insn32_text(insn, pc), lit("sltu ")),
        (insn >> 25) == 0 && (insn >> 12) & 0x7 == 4 ==> starts_with(insn32_text(insn, pc), lit("xor ")),
        (insn >> 25) == 0 && (insn >> 12) & 0x7 == 5 ==> starts_with(insn32_text(insn, pc), lit("srl ")),
        (insn >> 25) == 0 && (insn >> 12) & 0x7 == 6 ==> starts_with(insn32_text(insn, pc), lit("or ")),
        (insn >> 25) == 0 && (insn >> 12) & 0x7 == 7 ==> starts_with(insn32_text(insn, pc), lit("and ")),
        (insn >> 25) == 0 && (insn >> 12) & 0x7 == 3 && (insn >> 15) & 0x1f == 0 ==> starts_with(insn32_text(insn, pc), lit("snez ")),
        (insn >> 25) == 0x20 && (insn >> 12) & 0x7 == 0 ==> starts_with(insn32_text(insn, pc), lit("sub ")),
        (insn >> 25) == 0x20 && (insn >> 12) & 0x7 == 5 ==> starts_with(insn32_text(insn, pc), lit("sra ")),
        (insn >> 25) == 1 && (insn >> 12) & 0x7 == 0 ==> starts_with(insn32_text(insn, pc), lit("mul ")),
        (insn >> 25) == 1 && (insn >> 12) & 0x7 == 1 ==> starts_with(insn32_text(insn, pc), lit("mulh ")),
        (insn >> 25) == 1 && (insn >> 12) & 0x7 == 2 ==> starts_with(insn32_text(insn, pc), lit("mulhsu ")),
        (insn >> 25) == 1 && (insn >> 12) & 0x7 == 3 ==> starts_with(insn32_text(insn, pc), lit("mulhu ")),
        (insn >> 25) == 1 && (insn >> 12) & 0x7 == 4 ==> starts_with(insn32_text(insn, pc), lit("div ")),
        (insn >> 25) == 1 && (insn >> 12) & 0x7 == 5 ==> starts_with(insn32_text(insn, pc), lit("divu ")),
        (insn >> 25) == 1 && (insn >> 12) & 0x7 == 6 ==> starts_with(insn32_text(insn, pc), lit("rem ")),
        (insn >> 25) == 1 && (insn >> 12) & 0x7 == 7 ==> starts_with(insn32_text(insn, pc), lit("remu ")),
{
    let f3 = (insn >> 12) & 0x7;
    let f7 = insn >> 25;
    let rd = (insn >> 7) & 0x1f;
    let rs1 = (insn >> 15) & 0x1f;
    let rs2 = (insn >> 20) & 0x1f;
    assert(insn32_text(insn, pc) == op_text(f3, f7, rd, rs1, rs2));
    if f7 == 0 && f3 == 0 {
        lemma_word_add();
        lemma_starts_form(lit("add"), reg_name(rd), reg_name(rs1), reg_name(rs2), lit("add "));
    }
    if f7 == 0 && f3 == 1 {
        lemma_word_sll();
        lemma_starts_form(lit("sll"), reg_name(rd), reg_name(rs1), reg_name(rs2), lit("sll "));
    }
    if f7 == 0 && f3 == 2 {
        lemma_word_slt();
        lemma_starts_form(lit("slt"), reg_name(rd), reg_name(rs1), reg_name(rs2), lit("slt "));
    }
    if f7 == 0 && f3 == 3 && rs1 != 0 {
        lemma_word_sltu();
        lemma_starts_form(lit("sltu"), reg_name(rd), reg_name(rs1), reg_name(rs2), lit("sltu "));
    }
    if f7 == 0 && f3 == 4 {
        lemma_word_xor();
        lemma_starts_form(lit("xor"), reg_name(rd), reg_name(rs1), reg_name(rs2), lit("xor "));
    }
    if f7 == 0 && f3 == 5 {
        lemma_word_srl();
        lemma_starts_form(lit("srl"), reg_name(rd), reg_name(rs1), reg_name(rs2), lit("srl "));
    }
    if f7 == 0 && f3 == 6 {
        lemma_word_or();
        lemma_starts_form(lit("or"), reg_name(rd), reg_name(rs1), reg_name(rs2), lit("or "));
    }
    if f7 == 0 && f3 == 7 {
        lemma_word_and();
        lemma_starts_form(lit("and"), reg_name(rd), reg_name(rs1), reg_name(rs2), lit("and "));
    }
    if f7 == 0 && f3 == 3 && rs1 == 0 {
        lemma_word_snez();
        lemma_starts_form(lit("snez"), reg_name(rd), reg_name(rs2), reg_name(rs2), lit("snez "));
    }
    if f7 == 0x20 && f3 == 0 {
        lemma_word_sub();
        lemma_starts_form(lit("sub"), reg_name(rd), reg_name(rs1), reg_name(rs2), lit("sub "));
    }
    if f7 == 0x20 && f3 == 5 {
        lemma_word_sra();
        lemma_starts_form(lit("sra"), reg_name(rd), reg_name(rs1), reg_name(rs2), lit("sra "));
    }
    if f7 == 1 && f3 == 0 {
        lemma_word_mul();
        lemma_starts_form(lit("mul"), reg_name(rd), reg_name(rs1), reg_name(rs2), lit("mul "));
    }
    if f7 == 1 && f3 == 1 {
        lemma_word_mulh();
        lemma_starts_form(lit("mulh"), reg_name(rd), reg_name(rs1), reg_name(rs2), lit("mulh "));
    }
    if f7 == 1 && f3 == 2 {
        lemma_word_mulhsu();
        lemma_starts_form(lit("mulhsu"), reg_name(rd), reg_name(rs1), reg_name(rs2), lit("mulhsu "));
    }
    if f7 == 1 && f3 == 3 {
        lemma_word_mulhu();
        lemma_starts_form(lit("mulhu"), reg_name(rd), reg_name(rs1), reg_name(rs2), lit("mulhu "));
    }
    if f7 == 1 && f3 == 4 {
        lemma_word_div();
        lemma_starts_form(lit("div"), reg_name(rd), reg_name(rs1), reg_name(rs2), lit("div "));
    }
    if f7 == 1 && f3 == 5 {
        lemma_word_divu();
        lemma_starts_form(lit("divu"), reg_name(rd), reg_name(rs1), reg_name(rs2), lit("divu "));
    }
    if f7 == 1 && f3 == 6 {
        lemma_word_rem();
        lemma_starts_form(lit("rem"), reg_name(rd), reg_name(rs1), reg_name(rs2), lit("rem "));
    }
    if f7 == 1 && f3 == 7 {
        lemma_word_remu();
        lemma_starts_form(lit("remu"), reg_name(rd), reg_name(rs1), reg_name(rs2), lit("remu "));
    }
}

/// Register-immediate operations (major opcode `0x13`) are named by funct3
/// as the base ISA names them: 0 `addi`, 1 `slli`, 2 `slti`, 3 `sltiu`,
/// 4 `xori`, 5 `srli` or, with the arithmetic bit set, `srai`, 6 `ori`,
/// 7 `andi`; with the aliases `li` (`addi` from `zero`), `mv` (`addi` of 0),
/// `seqz` (`sltiu` of 1) and `not` (`xori` of -1).
#[verifier::rlimit(40)]
pub proof fn law_op_imm_mnemonics(insn: u32, pc: u64)
    requires
        insn & 0x7f == 0x13,
    ensures
        (insn >> 12) & 0x7 == 0 && (insn >> 15) & 0x1f == 0 ==> starts_with(insn32_text(insn, pc), lit("li ")),
        (insn >> 12) & 0x7 == 0 && (insn >> 15) & 0x1f != 0 && i_imm(insn) == 0 ==> starts_with(insn32_text(insn, pc), lit("mv ")),
        (insn >> 12) & 0x7 == 0 && (insn >> 15) & 0x1f != 0 && i_imm(insn) != 0 ==> starts_with(insn32_text(insn, pc), lit("addi ")),
        (insn >> 12) & 0x7 == 1 ==> starts_with(insn32_text(insn, pc), lit("slli ")),
        (insn >> 12) & 0x7 == 2 ==> starts_with(insn32_text(insn, pc), lit("slti ")),
        (insn >> 12) & 0x7 == 3 && i_imm(insn) == 1 ==> starts_with(insn32_text(insn, pc), lit("seqz ")),
        (insn >> 12) & 0x7 == 3 && i_imm(insn) != 1 ==> starts_with(insn32_text(insn, pc), lit("sltiu ")),
        (insn >> 12) & 0x7 == 4 && i_imm(insn) == -1 ==> starts_with(insn32_text(insn, pc), lit("not ")),
        (insn >> 12) & 0x7 == 4 && i_imm(insn) != -1 ==> starts_with(insn32_text(insn, pc), lit("xori ")),
        (insn >> 12) & 0x7 == 5 && insn >> 26 == 0 ==> starts_with(insn32_text(insn, pc), lit("srli ")),
        (insn >> 12) & 0x7 == 5 && insn >> 26 != 0 ==> starts_with(insn32_text(insn, pc), lit("srai ")),
        (insn >> 12) & 0x7 == 6 ==> starts_with(insn32_text(insn, pc), lit("ori ")),
        (insn >> 12) & 0x7 == 7 ==> starts_with(insn32_text(insn, pc), lit("andi ")),
{
    let f3 = (insn >> 12) & 0x7;
    let rd = (insn >> 7) & 0x1f;
    let rs1 = (insn >> 15) & 0x1f;
    let imm = i_imm(insn);
    let d = reg_name(rd);
    let s = reg_name(rs1);
    let i = sdec(imm as int);
    let sh = dec(((insn >> 20) & 0x3f) as nat);
    assert(insn32_text(insn, pc) == op_imm_text(insn, f3, rd, rs1));
    if f3 == 0 && rs1 == 0 {
        lemma_word_li();
        lemma_starts_form(lit("li"), d, i, i, lit("li "));
    }
    if f3 == 0 && rs1 != 0 && imm == 0 {
        lemma_word_mv();
        lemma_starts_form(lit("mv"), d, s, s, lit("mv "));
    }
    if f3 == 0 && rs1 != 0 && imm != 0 {
        lemma_word_addi();
        lemma_starts_form(lit("addi"), d, s, i, lit("addi "));
    }
    if f3 == 1 {
        lemma_word_slli();
        lemma_starts_form(lit("slli"), d, s, sh, lit("slli "));
    }
    if f3 == 2 {
        lemma_word_slti();
        lemma_starts_form(lit("slti"), d, s, i, lit("slti "));
    }
    if f3 == 3 && imm == 1 {
        lemma_word_seqz();
        lemma_starts_form(lit("seqz"), d, s, s, lit("seqz "));
    }
    if f3 == 3 && imm != 1 {
        lemma_word_sltiu();
        lemma_starts_form(lit("sltiu"), d, s, i, lit("sltiu "));
    }
    if f3 == 4 && imm == -1 {
        lemma_word_not();
        lemma_starts_form(lit("not"), d, s, s, lit("not "));
    }
    if f3 == 4 && imm != -1 {
        lemma_word_xori();
        lemma_starts_form(lit("xori"), d, s, i, lit("xori "));
    }
    if f3 == 5 && insn >> 26 == 0 {
        lemma_word_srli();
        lemma_starts_form(lit("srli"), d, s, sh, lit("srli "));
    }
    if f3 == 5 && insn >> 26 != 0 {
        lemma_word_srai();
        lemma_starts_form(lit("srai"), d, s, sh, lit("srai "));
    }
    if f3 == 6 {
        lemma_word_ori();
        lemma_starts_form(lit("ori"), d, s, i, lit("ori "));
    }
    if f3 == 7 {
        lemma_word_andi();
        lemma_starts_form(lit("andi"), d, s, i, lit("andi "));
    }
}

/// Word register-immediate operations (major opcode `0x1b`) are named by
/// funct3 as RV64I names them: 0 `addiw` (`sext.w` for an immediate of 0),
/// 1 `slliw`, 5 `srliw` or, with a nonzero funct7, `sraiw`.
pub proof fn law_op_imm32_mnemonics(insn: u32, pc: u64)
    requires
        insn & 0x7f == 0x1b,
    ensures
        (insn >> 12) & 0x7 == 0 && i_imm(insn) == 0 ==> starts_with(insn32_text(insn, pc), lit("sext.w ")),
        (insn >> 12) & 0x7 == 0 && i_imm(insn) != 0 ==> starts_with(insn32_text(insn, pc), lit("addiw ")),
        (insn >> 12) & 0x7 == 1 ==> starts_with(insn32_text(insn, pc), lit("slliw ")),
        (insn >> 12) & 0x7 == 5 && insn >> 25 == 0 ==> starts_with(insn32_text(insn, pc), lit("srliw ")),
        (insn >> 12) & 0x7 == 5 && insn >> 25 != 0 ==> starts_with(insn32_text(insn, pc), lit("sraiw ")),
{
    let f3 = (insn >> 12) & 0x7;
    let rd = (insn >> 7) & 0x1f;
    let rs1 = (insn >> 15) & 0x1f;
    let imm = i_imm(insn);
    let d = reg_name(rd);
    let s = reg_name(rs1);
    let i = sdec(imm as int);
    let sh = dec(((insn >> 20) & 0x1f) as nat);
    assert(insn32_text(insn, pc) == op_imm32_text(insn, f3, rd, rs1));
    if f3 == 0 && imm == 0 {
        lemma_word_sext_w();
        lemma_starts_form(lit("sext.w"), d, s, s, lit("sext.w "));
    }
    if f3 == 0 && imm != 0 {
        lemma_word_addiw();
        lemma_starts_form(lit("addiw"), d, s, i, lit("addiw "));
    }
    if f3 == 1 {
        lemma_word_slliw();
        lemma_starts_form(lit("slliw"), d, s, sh, lit("slliw "));
    }
    if f3 == 5 && insn >> 25 == 0 {
        lemma_word_srliw();
        lemma_starts_form(lit("srliw"), d, s, sh, lit("srliw "));
    }
    if f3 == 5 && insn >> 25 != 0 {
        lemma_word_sraiw();
        lemma_starts_form(lit("sraiw"), d, s, sh, lit("sraiw "));
    }
}

/// Word register-register operations (major opcode `0x3b`) are named by
/// funct7 and funct3 as RV64I and RV64M name them: funct7 0 gives `addw`,
/// `sllw`, `srlw`; funct7 `0x20` gives `subw` and `sraw`; funct7 1 gives
/// `mulw`, `divw`, `divuw`, `remw`, `remuw`.
#[verifier::rlimit(40)]
pub proof fn law_op32_mnemonics(insn: u32, pc: u64)
    requires
        insn & 0x7f == 0x3b,
    ensures
        (insn >> 25) == 0 && (insn >> 12) & 0x7 == 0 ==> starts_with(insn32_text(insn, pc), lit("addw ")),
        (insn >> 25) == 0x20 && (insn >> 12) & 0x7 == 0 ==> starts_with(insn32_text(insn, pc), lit("subw ")),
        (insn >> 25) == 0 && (insn >> 12) & 0x7 == 1 ==> starts_with(insn32_text(insn, pc), lit("sllw ")),
        (insn >> 25) == 0 && (insn >> 12) & 0x7 == 5 ==> starts_with(insn32_text(insn, pc), lit("srlw ")),
        (insn >> 25) == 0x20 && (insn >> 12) & 0x7 == 5 ==> starts_with(insn32_text(insn, pc), lit("sraw ")),
        (insn >> 25) == 1 && (insn >> 12) & 0x7 == 0 ==> starts_with(insn32_text(insn, pc), lit("mulw ")),
        (insn >> 25) == 1 && (insn >> 12) & 0x7 == 4 ==> starts_with(insn32_text(insn, pc), lit("divw ")),
        (insn >> 25) == 1 && (insn >> 12) & 0x7 == 5 ==> starts_with(insn32_text(insn, pc), lit("divuw ")),
        (insn >> 25) == 1 && (insn >> 12) & 0x7 == 6 ==> starts_with(insn32_text(insn, pc), lit("remw ")),
        (insn >> 25) == 1 && (insn >> 12) & 0x7 == 7 ==> starts_with(insn32_text(insn, pc), lit("remuw ")),
{
    let f3 = (insn >> 12) & 0x7;
    let f7 = insn >> 25;
    let rd = (insn >> 7) & 0x1f;
    let rs1 = (insn >> 15) & 0x1f;
    let rs2 = (insn >> 20) & 0x1f;
    assert(insn32_text(insn, pc) == op32_text(f3, f7, rd, rs1, rs2));
    if f7 == 0 && f3 == 0 {
        lemma_word_addw();
        lemma_starts_form(lit("addw"), reg_name(rd), reg_name(rs1), reg_name(rs2), lit("addw "));
    }
    if f7 == 0x20 && f3 == 0 {
        lemma_word_subw();
        lemma_starts_form(lit("subw"), reg_name(rd), reg_name(rs1), reg_name(rs2), lit("subw "));
    }
    if f7 == 0 && f3 == 1 {
        lemma_word_sllw();
        lemma_starts_form(lit("sllw"), reg_name(rd), reg_name(rs1), reg_name(rs2), lit("sllw "));
    }
    if f7 == 0 && f3 == 5 {
        lemma_word_srlw();
        lemma_starts_form(lit("srlw"), reg_name(rd), reg_name(rs1), reg_name(rs2), lit("srlw "));
    }
    if f7 == 0x20 && f3 == 5 {
        lemma_word_sraw();
        lemma_starts_form(lit("sraw"), reg_name(rd), reg_name(rs1), reg_name(rs2), lit("sraw "));
    }
    if f7 == 1 && f3 == 0 {
        lemma_word_mulw();
        lemma_starts_form(lit("mulw"), reg_name(rd), reg_name(rs1), reg_name(rs2), lit("mulw "));
    }
    if f7 == 1 && f3 == 4 {
        lemma_word_divw();
        lemma_starts_form(lit("divw"), reg_name(rd), reg_name(rs1), reg_name(rs2), lit("divw "));
    }
    if f7 == 1 && f3 == 5 {
        lemma_word_divuw();
        lemma_starts_form(lit("divuw"), reg_name(rd), reg_name(rs1), reg_name(rs2), lit("divuw "));
    }
    if f7 == 1 && f3 == 6 {
        lemma_word_remw();
        lemma_starts_form(lit("remw"), reg_name(rd), reg_name(rs1), reg_name(rs2), lit("remw "));
    }
    if f7 == 1 && f3 == 7 {
        lemma_word_remuw();
        lemma_starts_form(lit("remuw"), reg_name(rd), reg_name(rs1), reg_name(rs2), lit("remuw "));
    }
}

/// Atomic memory operations (major opcode `0x2f`) are named by funct5 as the
/// A extension names them: 0 `amoadd`, 1 `amoswap`, 2 `lr`, 3 `sc`, 4
/// `amoxor`, 8 `amoor`, 0xc `amoand`, 0x10 `amomin`, 0x14 `amomax`, 0x18
/// `amominu`, 0x1c `amomaxu`; with `.w` for funct3 2 and `.d` for funct3 3,
/// and no ordering suffix when the aq and rl bits are clear.
#[verifier::rlimit(60)]
pub proof fn law_amo_mnemonics(insn: u32, pc: u64)
    requires
        insn & 0x7f == 0x2f,
        (insn >> 26) & 1 == 0,
        (insn >> 25) & 1 == 0,
    ensures
        insn >> 27 == 0x01 && (insn >> 12) & 0x7 == 2 ==> starts_with(insn32_text(insn, pc), lit("amoswap.w ")),
        insn >> 27 == 0x01 && (insn >> 12) & 0x7 == 3 ==> starts_with(insn32_text(insn, pc), lit("amoswap.d ")),
        insn >> 27 == 0x00 && (insn >> 12) & 0x7 == 2 ==> starts_with(insn32_text(insn, pc), lit("amoadd.w ")),
        insn >> 27 == 0x00 && (insn >> 12) & 0x7 == 3 ==> starts_with(insn32_text(insn, pc), lit("amoadd.d ")),
        insn >> 27 == 0x04 && (insn >> 12) & 0x7 == 2 ==> starts_with(insn32_text(insn, pc), lit("amoxor.w ")),
        insn >> 27 == 0x04 && (insn >> 12) & 0x7 == 3 ==> starts_with(insn32_text(insn, pc), lit("amoxor.d ")),
        insn >> 27 == 0x0c && (insn >> 12) & 0x7 == 2 ==> starts_with(insn32_text(insn, pc), lit("amoand.w ")),
        insn >> 27 == 0x0c && (insn >> 12) & 0x7 == 3 ==> starts_with(insn32_text(insn, pc), lit("amoand.d ")),
        insn >> 27 == 0x08 && (insn >> 12) & 0x7 == 2 ==> starts_with(insn32_text(insn, pc), lit("amoor.w ")),
        insn >> 27 == 0x08 && (insn >> 12) & 0x7 == 3 ==> starts_with(insn32_text(insn, pc), lit("amoor.d ")),
        insn >> 27 == 0x10 && (insn >> 12) & 0x7 == 2 ==> starts_with(insn32_text(insn, pc), lit("amomin.w ")),
        insn >> 27 == 0x10 && (insn >> 12) & 0x7 == 3 ==> starts_with(insn32_text(insn, pc), lit("amomin.d ")),
        insn >> 27 == 0x14 && (insn >> 12) & 0x7 == 2 ==> starts_with(insn32_text(insn, pc), lit("amomax.w ")),
        insn >> 27 == 0x14 && (insn >> 12) & 0x7 == 3 ==> starts_with(insn32_text(insn, pc), lit("amomax.d ")),
        insn >> 27 == 0x18 && (insn >> 12) & 0x7 == 2 ==> starts_with(insn32_text(insn, pc), lit("amominu.w ")),
        insn >> 27 == 0x18 && (insn >> 12) & 0x7 == 3 ==> starts_with(insn32_text(insn, pc), lit("amominu.d ")),
        insn >> 27 == 0x1c && (insn >> 12) & 0x7 == 2 ==> starts_with(insn32_text(insn, pc), lit("amomaxu.w ")),
        insn >> 27 == 0x1c && (insn >> 12) & 0x7 == 3 ==> starts_with(insn32_text(insn, pc), lit("amomaxu.d ")),
        insn >> 27 == 0x02 && (insn >> 12) & 0x7 == 2 ==> starts_with(insn32_text(insn, pc), lit("lr.w ")),
        insn >> 27 == 0x02 && (insn >> 12) & 0x7 == 3 ==> starts_with(insn32_text(insn, pc), lit("lr.d ")),
        insn >> 27 == 0x03 && (insn >> 12) & 0x7 == 2 ==> starts_with(insn32_text(insn, pc), lit("sc.w ")),
        insn >> 27 == 0x03 && (insn >> 12) & 0x7 == 3 ==> starts_with(insn32_text(insn, pc), lit("sc.d ")),
{
    let f3 = (insn >> 12) & 0x7;
    let rd = (insn >> 7) & 0x1f;
    let rs1 = (insn >> 15) & 0x1f;
    let rs2 = (insn >> 20) & 0x1f;
    let f5 = insn >> 27;
    let base = paren(reg_name(rs1));
    assert(insn32_text(insn, pc) == amo_text(insn, f3, rd, rs1, rs2));
    assert(aqrl_str((insn >> 26) & 1, (insn >> 25) & 1) == "");
    if f5 == 0x01 && f3 == 2 {
        lemma_word_amoswap_w();
        lemma_starts_form(lit("amoswap") + (lit(".w") + lit("")), reg_name(rd), reg_name(rs2), base, lit("amoswap.w "));
    }
    if f5 == 0x01 && f3 == 3 {
        lemma_word_amoswap_d();
        lemma_starts_form(lit("amoswap") + (lit(".d") + lit("")), reg_name(rd), reg_name(rs2), base, lit("amoswap.d "));
    }
    if f5 == 0x00 && f3 == 2 {
        lemma_word_amoadd_w();
        lemma_starts_form(lit("amoadd") + (lit(".w") + lit("")), reg_name(rd), reg_name(rs2), base, lit("amoadd.w "));
    }
    if f5 == 0x00 && f3 == 3 {
        lemma_word_amoadd_d();
        lemma_starts_form(lit("amoadd") + (lit(".d") + lit("")), reg_name(rd), reg_name(rs2), base, lit("amoadd.d "));
    }
    if f5 == 0x04 && f3 == 2 {
        lemma_word_amoxor_w();
        lemma_starts_form(lit("amoxor") + (lit(".w") + lit("")), reg_name(rd), reg_name(rs2), base, lit("amoxor.w "));
    }
    if f5 == 0x04 && f3 == 3 {
        lemma_word_amoxor_d();
        lemma_starts_form(lit("amoxor") + (lit(".d") + lit("")), reg_name(rd), reg_name(rs2), base, lit("amoxor.d "));
    }
    if f5 == 0x0c && f3 == 2 {
        lemma_word_amoand_w();
        lemma_starts_form(lit("amoand") + (lit(".w") + lit("")), reg_name(rd), reg_name(rs2), base, lit("amoand.w "));
    }
    if f5 == 0x0c && f3 == 3 {
        lemma_word_amoand_d();
        lemma_starts_form(lit("amoand") + (lit(".d") + lit("")), reg_name(rd), reg_name(rs2), base, lit("amoand.d "));
    }
    if f5 == 0x08 && f3 == 2 {
        lemma_word_amoor_w();
        lemma_starts_form(lit("amoor") + (lit(".w") + lit("")), reg_name(rd), reg_name(rs2), base, lit("amoor.w "));
    }
    if f5 == 0x08 && f3 == 3 {
        lemma_word_amoor_d();
        lemma_starts_form(lit("amoor") + (lit(".d") + lit("")), reg_name(rd), reg_name(rs2), base, lit("amoor.d "));
    }
    if f5 == 0x10 && f3 == 2 {
        lemma_word_amomin_w();
        lemma_starts_form(lit("amomin") + (lit(".w") + lit("")), reg_name(rd), reg_name(rs2), base, lit("amomin.w "));
    }
    if f5 == 0x10 && f3 == 3 {
        lemma_word_amomin_d();
        lemma_starts_form(lit("amomin") + (lit(".d") + lit("")), reg_name(rd), reg_name(rs2), base, lit("amomin.d "));
    }
    if f5 == 0x14 && f3 == 2 {
        lemma_word_amomax_w();
        lemma_starts_form(lit("amomax") + (lit(".w") + lit("")), reg_name(rd), reg_name(rs2), base, lit("amomax.w "));
    }
    if f5 == 0x14 && f3 == 3 {
        lemma_word_amomax_d();
        lemma_starts_form(lit("amomax") + (lit(".d") + lit("")), reg_name(rd), reg_name(rs2), base, lit("amomax.d "));
    }
    if f5 == 0x18 && f3 == 2 {
        lemma_word_amominu_w();
        lemma_starts_form(lit("amominu") + (lit(".w") + lit("")), reg_name(rd), reg_name(rs2), base, lit("amominu.w "));
    }
    if f5 == 0x18 && f3 == 3 {
        lemma_word_amominu_d();
        lemma_starts_form(lit("amominu") + (lit(".d") + lit("")), reg_name(rd), reg_name(rs2), base, lit("amominu.d "));
    }
    if f5 == 0x1c && f3 == 2 {
        lemma_word_amomaxu_w();
        lemma_starts_form(lit("amomaxu") + (lit(".w") + lit("")), reg_name(rd), reg_name(rs2), base, lit("amomaxu.w "));
    }
    if f5 == 0x1c && f3 == 3 {
        lemma_word_amomaxu_d();
        lemma_starts_form(lit("amomaxu") + (lit(".d") + lit("")), reg_name(rd), reg_name(rs2), base, lit("amomaxu.d "));
    }
    if f5 == 0x02 && f3 == 2 {
        lemma_word_lr_w();
        lemma_starts_form(lit("lr") + (lit(".w") + lit("")), reg_name(rd), base, base, lit("lr.w "));
    }
    if f5 == 0x02 && f3 == 3 {
        lemma_word_lr_d();
        lemma_starts_form(lit("lr") + (lit(".d") + lit("")), reg_name(rd), base, base, lit("lr.d "));
    }
    if f5 == 0x03 && f3 == 2 {
        lemma_word_sc_w();
        lemma_starts_form(lit("sc") + (lit(".w") + lit("")), reg_name(rd), reg_name(rs2), base, lit("sc.w "));
    }
    if f5 == 0x03 && f3 == 3 {
        lemma_word_sc_d();
        lemma_starts_form(lit("sc") + (lit(".d") + lit("")), reg_name(rd), reg_name(rs2), base, lit("sc.d "));
    }
}

/// SYSTEM instructions (major opcode `0x73`): the words `0x73` and
/// `0x100073` are `ecall` and `ebreak`; the CSR accesses are named by funct3
/// as the Zicsr extension names them: 1 `csrrw`, 2 `csrrs`, 3 `csrrc`, 5
/// `csrrwi`, 6 `csrrsi`, 7 `csrrci`.
pub proof fn law_system_mnemonics(insn: u32, pc: u64)
    requires
        insn & 0x7f == 0x73,
    ensures
        insn == 0x73 ==> insn32_text(insn, pc) == lit("ecall"),
        insn == 0x0010_0073 ==> insn32_text(insn, pc) == lit("ebreak"),
        (insn >> 12) & 0x7 == 1 ==> starts_with(insn32_text(insn, pc), lit("csrrw ")),
        (insn >> 12) & 0x7 == 2 ==> starts_with(insn32_text(insn, pc), lit("csrrs ")),
        (insn >> 12) & 0x7 == 3 ==> starts_with(insn32_text(insn, pc), lit("csrrc ")),
        (insn >> 12) & 0x7 == 5 ==> starts_with(insn32_text(insn, pc), lit("csrrwi ")),
        (insn >> 12) & 0x7 == 6 ==> starts_with(insn32_text(insn, pc), lit("csrrsi ")),
        (insn >> 12) & 0x7 == 7 ==> starts_with(insn32_text(insn, pc), lit("csrrci ")),
{
    let f3 = (insn >> 12) & 0x7;
    let rd = (insn >> 7) & 0x1f;
    let rs1 = (insn >> 15) & 0x1f;
    let csr = hex0x((insn >> 20) as nat);
    assert(insn32_text(insn, pc) == system_text(insn, rd, rs1, f3));
    if insn == 0x73 || insn == 0x0010_0073 {
        vstd::bits::lemma_u32_shr_is_div(insn, 12);
        vstd::arithmetic::power2::lemma2_to64();
        vstd::bits::lemma_low_bits_mask_values();
        vstd::bits::lemma_u32_low_bits_mask_is_mod(insn >> 12, 3);
        assert(f3 == 0);
    }
    if f3 == 1 {
        lemma_word_csrrw();
        lemma_starts_form(lit("csrrw"), reg_name(rd), csr, reg_name(rs1), lit("csrrw "));
    }
    if f3 == 2 {
        lemma_word_csrrs();
        lemma_starts_form(lit("csrrs"), reg_name(rd), csr, reg_name(rs1), lit("csrrs "));
    }
    if f3 == 3 {
        lemma_word_csrrc();
        lemma_starts_form(lit("csrrc"), reg_name(rd), csr, reg_name(rs1), lit("csrrc "));
    }
    if f3 == 5 {
        lemma_word_csrrwi();
        lemma_starts_form(lit("csrrwi"), reg_name(rd), csr, dec(rs1 as nat), lit("csrrwi "));
    }
    if f3 == 6 {
        lemma_word_csrrsi();
        lemma_starts_form(lit("csrrsi"), reg_name(rd), csr, dec(rs1 as nat), lit("csrrsi "));
    }
    if f3 == 7 {
        lemma_word_csrrci();
        lemma_starts_form(lit("csrrci"), reg_name(rd), csr, dec(rs1 as nat), lit("csrrci "));
    }
}

/// The upper-immediate and jump instructions: opcode `0x37` is `lui`,
/// `0x17` `auipc`, `0x6f` `jal` (`j` when it links nothing, `rd` = `zero`),
/// `0x67` `jalr` (`jr` for a plain indirect jump, `rd` = `zero` and offset
/// 0).
pub proof fn law_jump_mnemonics(insn: u32, pc: u64)
    ensures
        insn & 0x7f == 0x37 ==> starts_with(insn32_text(insn, pc), lit("lui ")),
        insn & 0x7f == 0x17 ==> starts_with(insn32_text(insn, pc), lit("auipc ")),
        insn & 0x7f == 0x6f && (insn >> 7) & 0x1f == 0 ==> starts_with(insn32_text(insn, pc), lit("j ")),
        insn & 0x7f == 0x6f && (insn >> 7) & 0x1f != 0 ==> starts_with(insn32_text(insn, pc), lit("jal ")),
        insn & 0x7f == 0x67 && (insn >> 7) & 0x1f == 0 && i_imm(insn) == 0 ==> starts_with(insn32_text(insn, pc), lit("jr ")),
        insn & 0x7f == 0x67 && (insn >> 7) & 0x1f != 0 ==> starts_with(insn32_text(insn, pc), lit("jalr ")),
{
    let rd = (insn >> 7) & 0x1f;
    let rs1 = (insn >> 15) & 0x1f;
    let op = insn & 0x7f;
    if op == 0x37 {
        lemma_word_lui();
        let x = hex0x(lui_field(insn) as nat);
        lemma_starts_form(lit("lui"), reg_name(rd), x, x, lit("lui "));
    }
    if op == 0x17 {
        lemma_word_auipc();
        let x = hex0x((((auipc_imm(insn) >> 12u32) & 0xfffff) as u64) as nat);
        let f = form2(lit("auipc"), reg_name(rd), x);
        lemma_starts_form(lit("auipc"), reg_name(rd), x, x, lit("auipc "));
        lemma_starts_more(f, lit("  # ") + hex0x(target(pc, auipc_imm(insn)) as nat), lit("auipc"), x, lit("auipc "));
        assert(insn32_text(insn, pc) =~= f + (lit("  # ") + hex0x(target(pc, auipc_imm(insn)) as nat)));
    }
    if op == 0x6f {
        let t = hex0x(target(pc, j_imm(insn)) as nat);
        if rd == 0 {
            lemma_word_j();
            lemma_starts_more(t, t, lit("j"), t, lit("j "));
        } else {
            lemma_word_jal();
            lemma_starts_form(lit("jal"), reg_name(rd), t, t, lit("jal "));
        }
    }
    if op == 0x67 {
        let imm = i_imm(insn);
        if rd == 0 && imm == 0 {
            lemma_word_jr();
            lemma_starts_more(reg_name(rs1), reg_name(rs1), lit("jr"), reg_name(rs1), lit("jr "));
        } else if rd == 1 && imm == 0 {
            lemma_word_jalr();
            lemma_starts_more(reg_name(rs1), reg_name(rs1), lit("jalr"), reg_name(rs1), lit("jalr "));
        } else {
            lemma_word_jalr();
            lemma_starts_mem(lit("jalr"), reg_name(rd), sdec(imm as int), reg_name(rs1), lit("jalr "));
        }
    }
}

/// Compressed instructions of quadrant 0 (low bits 0) are named by funct3
/// (bits 15:13) as the C extension names them: 0 `c.addi4spn` (with a
/// nonzero immediate), 2 `c.lw`, 3 `c.ld`, 6 `c.sw`, 7 `c.sd`.
pub proof fn law_c_q0_mnemonics(h: u32, pc: u64)
    requires
        h & 0x3 == 0,
    ensures
        (h >> 13) & 0x7 == 0 && addi4spn_imm(h) != 0 ==> starts_with(insn16_text(h, pc), lit("c.addi4spn ")),
        (h >> 13) & 0x7 == 2 ==> starts_with(insn16_text(h, pc), lit("c.lw ")),
        (h >> 13) & 0x7 == 3 ==> starts_with(insn16_text(h, pc), lit("c.ld ")),
        (h >> 13) & 0x7 == 6 ==> starts_with(insn16_text(h, pc), lit("c.sw ")),
        (h >> 13) & 0x7 == 7 ==> starts_with(insn16_text(h, pc), lit("c.sd ")),
{
    let f3 = (h >> 13) & 0x7;
    let rd = creg_name((h >> 2) & 0x7);
    let rs1 = creg_name((h >> 7) & 0x7);
    assert(insn16_text(h, pc) == c_q0_text(h, f3));
    if f3 == 0 && addi4spn_imm(h) != 0 {
        lemma_word_c_addi4spn();
        lemma_starts_form(lit("c.addi4spn"), rd, lit("sp"), dec(addi4spn_imm(h) as nat), lit("c.addi4spn "));
    }
    if f3 == 2 {
        lemma_word_c_lw();
        lemma_starts_mem(lit("c.lw"), rd, dec(clw_off(h) as nat), rs1, lit("c.lw "));
    }
    if f3 == 3 {
        lemma_word_c_ld();
        lemma_starts_mem(lit("c.ld"), rd, dec(cld_off(h) as nat), rs1, lit("c.ld "));
    }
    if f3 == 6 {
        lemma_word_c_sw();
        lemma_starts_mem(lit("c.sw"), rd, dec(clw_off(h) as nat), rs1, lit("c.sw "));
    }
    if f3 == 7 {
        lemma_word_c_sd();
        lemma_starts_mem(lit("c.sd"), rd, dec(cld_off(h) as nat), rs1, lit("c.sd "));
    }
}

/// Compressed instructions of quadrant 1 (low bits 1) are named by funct3
/// as the C extension names them: 0 `c.addi` (`c.nop` for `rd` = 0), 1
/// `c.addiw`, 2 `c.li`, 3 `c.lui` (`c.addi16sp` for `rd` = `sp`), 5 `c.j`,
/// 6 `c.beqz`, 7 `c.bnez`; funct3 4 is `c.srli`, `c.srai`, `c.andi` by bits
/// 11:10, and for bits 11:10 = 3 `c.sub`, `c.xor`, `c.or`, `c.and`
/// (bit 12 clear) or `c.subw`, `c.addw` (bit 12 set) by bits 6:5.
#[verifier::rlimit(60)]
pub proof fn law_c_q1_mnemonics(h: u32, pc: u64)
    requires
        h & 0x3 == 1,
    ensures
        (h >> 13) & 0x7 == 0 && (h >> 7) & 0x1f == 0 ==> insn16_text(h, pc) == lit("c.nop"),
        (h >> 13) & 0x7 == 0 && (h >> 7) & 0x1f != 0 ==> starts_with(insn16_text(h, pc), lit("c.addi ")),
        (h >> 13) & 0x7 == 1 ==> starts_with(insn16_text(h, pc), lit("c.addiw ")),
        (h >> 13) & 0x7 == 2 ==> starts_with(insn16_text(h, pc), lit("c.li ")),
        (h >> 13) & 0x7 == 3 && (h >> 7) & 0x1f == 2 ==> starts_with(insn16_text(h, pc), lit("c.addi16sp ")),
        (h >> 13) & 0x7 == 3 && (h >> 7) & 0x1f != 2 ==> starts_with(insn16_text(h, pc), lit("c.lui ")),
        (h >> 13) & 0x7 == 5 ==> starts_with(insn16_text(h, pc), lit("c.j ")),
        (h >> 13) & 0x7 == 6 ==> starts_with(insn16_text(h, pc), lit("c.beqz ")),
        (h >> 13) & 0x7 == 7 ==> starts_with(insn16_text(h, pc), lit("c.bnez ")),
        (h >> 13) & 0x7 == 4 && (h >> 10) & 0x3 == 0 ==> starts_with(insn16_text(h, pc), lit("c.srli ")),
        (h >> 13) & 0x7 == 4 && (h >> 10) & 0x3 == 1 ==> starts_with(insn16_text(h, pc), lit("c.srai ")),
        (h >> 13) & 0x7 == 4 && (h >> 10) & 0x3 == 2 ==> starts_with(insn16_text(h, pc), lit("c.andi ")),
        (h >> 13) & 0x7 == 4 && (h >> 10) & 0x3 == 3 && (h >> 12) & 1 == 0 && (h >> 5) & 0x3 == 0 ==> starts_with(insn16_text(h, pc), lit("c.sub ")),
        (h >> 13) & 0x7 == 4 && (h >> 10) & 0x3 == 3 && (h >> 12) & 1 == 0 && (h >> 5) & 0x3 == 1 ==> starts_with(insn16_text(h, pc), lit("c.xor ")),
        (h >> 13) & 0x7 == 4 && (h >> 10) & 0x3 == 3 && (h >> 12) & 1 == 0 && (h >> 5) & 0x3 == 2 ==> starts_with(insn16_text(h, pc), lit("c.or ")),
        (h >> 13) & 0x7 == 4 && (h >> 10) & 0x3 == 3 && (h >> 12) & 1 == 0 && (h >> 5) & 0x3 == 3 ==> starts_with(insn16_text(h, pc), lit("c.and ")),
        (h >> 13) & 0x7 == 4 && (h >> 10) & 0x3 == 3 && (h >> 12) & 1 == 1 && (h >> 5) & 0x3 == 0 ==> starts_with(insn16_text(h, pc), lit("c.subw ")),
        (h >> 13) & 0x7 == 4 && (h >> 10) & 0x3 == 3 && (h >> 12) & 1 == 1 && (h >> 5) & 0x3 == 1 ==> starts_with(insn16_text(h, pc), lit("c.addw ")),
{
    let f3 = (h >> 13) & 0x7;
    let rd = (h >> 7) & 0x1f;
    let imm = sdec(ci_imm(h) as int);
    let f2 = (h >> 10) & 0x3;
    let b12 = (h >> 12) & 1;
    let f2b = (h >> 5) & 0x3;
    let cr = creg_name((h >> 7) & 0x7);
    let shamt = dec((((h >> 7) & 0x20) | ((h >> 2) & 0x1f)) as nat);
    assert(insn16_text(h, pc) == c_q1_text(h, f3, pc));
    if f3 == 4 {
        assert(c_q1_text(h, f3, pc) == c_alu_text(h));
    }
    if f3 == 0 && rd != 0 {
        lemma_word_c_addi();
        lemma_starts_form(lit("c.addi"), reg_name(rd), imm, imm, lit("c.addi "));
    }
    if f3 == 1 {
        lemma_word_c_addiw();
        lemma_starts_form(lit("c.addiw"), reg_name(rd), imm, imm, lit("c.addiw "));
    }
    if f3 == 2 {
        lemma_word_c_li();
        lemma_starts_form(lit("c.li"), reg_name(rd), imm, imm, lit("c.li "));
    }
    if f3 == 3 && rd == 2 {
        lemma_word_c_addi16sp();
        lemma_starts_form(lit("c.addi16sp"), lit("sp"), sdec(addi16sp_imm(h) as int), imm, lit("c.addi16sp "));
    }
    if f3 == 3 && rd != 2 {
        lemma_word_c_lui();
        lemma_starts_form(lit("c.lui"), reg_name(rd), hex0x((ci_imm(h) as u64) as nat), imm, lit("c.lui "));
    }
    if f3 == 5 {
        lemma_word_c_j();
        lemma_starts_more(hex0x(target(pc, cj_off(h)) as nat), hex0x(target(pc, cj_off(h)) as nat), lit("c.j"), hex0x(target(pc, cj_off(h)) as nat), lit("c.j "));
    }
    if f3 == 6 {
        lemma_word_c_beqz();
        lemma_starts_form(lit("c.beqz"), creg_name((h >> 7) & 0x7), hex0x(target(pc, cb_off(h)) as nat), imm, lit("c.beqz "));
    }
    if f3 == 7 {
        lemma_word_c_bnez();
        lemma_starts_form(lit("c.bnez"), creg_name((h >> 7) & 0x7), hex0x(target(pc, cb_off(h)) as nat), imm, lit("c.bnez "));
    }
    if f3 == 4 && f2 == 0 {
        lemma_word_c_srli();
        lemma_starts_form(lit("c.srli"), cr, shamt, shamt, lit("c.srli "));
    }
    if f3 == 4 && f2 == 1 {
        lemma_word_c_srai();
        lemma_starts_form(lit("c.srai"), cr, shamt, shamt, lit("c.srai "));
    }
    if f3 == 4 && f2 == 2 {
        lemma_word_c_andi();
        lemma_starts_form(lit("c.andi"), cr, sdec(ci_imm(h) as int), shamt, lit("c.andi "));
    }
    if f3 == 4 && f2 == 3 && b12 == 0 && f2b == 0 {
        lemma_word_c_sub();
        lemma_starts_form(lit("c.sub"), cr, creg_name((h >> 2) & 0x7), shamt, lit("c.sub "));
    }
    if f3 == 4 && f2 == 3 && b12 == 0 && f2b == 1 {
        lemma_word_c_xor();
        lemma_starts_form(lit("c.xor"), cr, creg_name((h >> 2) & 0x7), shamt, lit("c.xor "));
    }
    if f3 == 4 && f2 == 3 && b12 == 0 && f2b == 2 {
        lemma_word_c_or();
        lemma_starts_form(lit("c.or"), cr, creg_name((h >> 2) & 0x7), shamt, lit("c.or "));
    }
    if f3 == 4 && f2 == 3 && b12 == 0 && f2b == 3 {
        lemma_word_c_and();
        lemma_starts_form(lit("c.and"), cr, creg_name((h >> 2) & 0x7), shamt, lit("c.and "));
    }
    if f3 == 4 && f2 == 3 && b12 == 1 && f2b == 0 {
        lemma_word_c_subw();
        lemma_starts_form(lit("c.subw"), cr, creg_name((h >> 2) & 0x7), shamt, lit("c.subw "));
    }
    if f3 == 4 && f2 == 3 && b12 == 1 && f2b == 1 {
        lemma_word_c_addw();
        lemma_starts_form(lit("c.addw"), cr, creg_name((h >> 2) & 0x7), shamt, lit("c.addw "));
    }
}

/// Compressed instructions of quadrant 2 (low bits 2) are named by funct3
/// as the C extension names them: 0 `c.slli`, 2 `c.lwsp`, 3 `c.ldsp`, 6
/// `c.swsp`, 7 `c.sdsp`; funct3 4 is `c.jr` / `c.mv` with bit 12 clear and
/// `c.ebreak` / `c.jalr` / `c.add` with it set, by whether `rs2` (and `rd`)
/// are 0.
#[verifier::rlimit(40)]
pub proof fn law_c_q2_mnemonics(h: u32, pc: u64)
    requires
        h & 0x3 == 2,
    ensures
        (h >> 13) & 0x7 == 4 && (h >> 12) & 1 != 0 && (h >> 2) & 0x1f == 0 && (h >> 7) & 0x1f == 0 ==> insn16_text(h, pc)
            == lit("c.ebreak"),
        (h >> 13) & 0x7 == 0 ==> starts_with(insn16_text(h, pc), lit("c.slli ")),
        (h >> 13) & 0x7 == 2 ==> starts_with(insn16_text(h, pc), lit("c.lwsp ")),
        (h >> 13) & 0x7 == 3 ==> starts_with(insn16_text(h, pc), lit("c.ldsp ")),
        (h >> 13) & 0x7 == 4 && (h >> 12) & 1 == 0 && (h >> 2) & 0x1f == 0 ==> starts_with(insn16_text(h, pc), lit("c.jr ")),
        (h >> 13) & 0x7 == 4 && (h >> 12) & 1 == 0 && (h >> 2) & 0x1f != 0 ==> starts_with(insn16_text(h, pc), lit("c.mv ")),
        (h >> 13) & 0x7 == 4 && (h >> 12) & 1 != 0 && (h >> 2) & 0x1f == 0 && (h >> 7) & 0x1f != 0 ==> starts_with(insn16_text(h, pc), lit("c.jalr ")),
        (h >> 13) & 0x7 == 4 && (h >> 12) & 1 != 0 && (h >> 2) & 0x1f != 0 ==> starts_with(insn16_text(h, pc), lit("c.add ")),
        (h >> 13) & 0x7 == 6 ==> starts_with(insn16_text(h, pc), lit("c.swsp ")),
        (h >> 13) & 0x7 == 7 ==> starts_with(insn16_text(h, pc), lit("c.sdsp ")),
{
    let f3 = (h >> 13) & 0x7;
    let rd = (h >> 7) & 0x1f;
    let rs2 = (h >> 2) & 0x1f;
    let b12 = (h >> 12) & 1;
    let s = lit("sp");
    assert(insn16_text(h, pc) == c_q2_text(h, f3));
    if f3 == 0 {
        lemma_word_c_slli();
        lemma_starts_form(lit("c.slli"), reg_name(rd), dec((((h >> 7) & 0x20) | ((h >> 2) & 0x1f)) as nat), s, lit("c.slli "));
    }
    if f3 == 2 {
        lemma_word_c_lwsp();
        lemma_starts_mem(lit("c.lwsp"), reg_name(rd), dec((((h >> 2) & 0x1c) | ((h << 4) & 0x20) | ((h >> 7) & 0x40)) as nat), lit("sp"), lit("c.lwsp "));
    }
    if f3 == 3 {
        lemma_word_c_ldsp();
        lemma_starts_mem(lit("c.ldsp"), reg_name(rd), dec((((h >> 2) & 0x18) | ((h << 4) & 0x20) | ((h >> 7) & 0xc0)) as nat), lit("sp"), lit("c.ldsp "));
    }
    if f3 == 4 && b12 == 0 && rs2 == 0 {
        lemma_word_c_jr();
        lemma_starts_more(reg_name(rd), reg_name(rd), lit("c.jr"), reg_name(rd), lit("c.jr "));
    }
    if f3 == 4 && b12 == 0 && rs2 != 0 {
        lemma_word_c_mv();
        lemma_starts_form(lit("c.mv"), reg_name(rd), reg_name(rs2), s, lit("c.mv "));
    }
    if f3 == 4 && b12 != 0 && rs2 == 0 && rd != 0 {
        lemma_word_c_jalr();
        lemma_starts_more(reg_name(rd), reg_name(rd), lit("c.jalr"), reg_name(rd), lit("c.jalr "));
    }
    if f3 == 4 && b12 != 0 && rs2 != 0 {
        lemma_word_c_add();
        lemma_starts_form(lit("c.add"), reg_name(rd), reg_name(rs2), s, lit("c.add "));
    }
    if f3 == 6 {
        lemma_word_c_swsp();
        lemma_starts_mem(lit("c.swsp"), reg_name(rs2), dec((((h >> 7) & 0x3c) | ((h >> 1) & 0x40)) as nat), lit("sp"), lit("c.swsp "));
    }
    if f3 == 7 {
        lemma_word_c_sdsp();
        lemma_starts_mem(lit("c.sdsp"), reg_name(rs2), dec((((h >> 7) & 0x38) | ((h >> 1) & 0xc0)) as nat), lit("sp"), lit("c.sdsp "));
    }
}

/// The I-type immediate is the top 12 bits of the instruction read as a
/// signed number: those bits as they are when bit 31 is clear, less 4096
/// when it is set; so it lies in -2048..=2047.
pub proof fn law_i_imm(insn: u32)
    ensures
        insn >> 31 == 0 ==> i_imm(insn) == (insn >> 20) as int,
        insn >> 31 != 0 ==> i_imm(insn) == (insn >> 20) as int - 4096,
        -2048 <= i_imm(insn) <= 2047,
{
    crate::backend::fold::lemma_shift_bits();
    assert(((32 - 12) as u32) == 20u32);
    let x = insn >> 20u32;
    assert((((x << 20u32) as i32) >> 20u32) as i64 == (if insn >> 31u32 == 0u32 {
        x as i64
    } else {
        ((x as i64) - 4096i64) as i64
    }));
    vstd::bits::lemma_u32_shr_is_div(insn, 20);
    vstd::bits::lemma_u32_shr_is_div(insn, 31);
    vstd::arithmetic::power2::lemma2_to64();
}

/// The B-type branch offset is assembled from its scattered fields with
/// their weights in the RISC-V encoding: bit 7 of the instruction is worth
/// 2048, bits 30:25 count in units of 32, bits 11:8 in units of 2, and
/// bit 31 is the sign, worth -4096; so the offset is even and lies in
/// -4096..=4094.
pub proof fn law_b_imm(insn: u32)
    ensures
        b_imm(insn) == ((insn >> 7) & 1) * 2048 + ((insn >> 25) & 0x3f) * 32 + ((insn >> 8) & 0xf) * 2 - (if insn >> 31
            == 0 {
            0int
        } else {
            4096int
        }),
        b_imm(insn) % 2 == 0,
        -4096 <= b_imm(insn) <= 4094,
{
    crate::backend::fold::lemma_shift_bits();
    assert(((32 - 13) as u32) == 19u32);
    let v = (((insn >> 31) & 1) << 12) | (((insn >> 7) & 1) << 11) | (((insn >> 25) & 0x3f) << 5) | (((insn >> 8)
        & 0xf) << 1);
    assert((((v << 19u32) as i32) >> 19u32) as i64 == ((((((insn >> 7u32) & 1u32) as i64) * 2048i64 + (((insn >> 25u32)
        & 0x3fu32) as i64) * 32i64) as i64 + (((insn >> 8u32) & 0xfu32) as i64) * 2i64) as i64 - (if insn >> 31u32
        == 0u32 {
        0i64
    } else {
        4096i64
    })) as i64);
    assert((insn >> 7) & 1 <= 1) by {
        vstd::bits::lemma_u32_low_bits_mask_is_mod(insn >> 7, 1);
        vstd::bits::lemma_low_bits_mask_values();
        vstd::arithmetic::power2::lemma2_to64();
    }
    assert((insn >> 25) & 0x3f <= 0x3f) by {
        vstd::bits::lemma_u32_low_bits_mask_is_mod(insn >> 25, 6);
        vstd::bits::lemma_low_bits_mask_values();
        vstd::arithmetic::power2::lemma2_to64();
    }
    assert((insn >> 8) & 0xf <= 0xf) by {
        vstd::bits::lemma_u32_low_bits_mask_is_mod(insn >> 8, 4);
        vstd::bits::lemma_low_bits_mask_values();
        vstd::arithmetic::power2::lemma2_to64();
    }
}

/// The S-type store offset: bits 30:25 of the instruction count in units
/// of 32, bits 11:7 in units of 1, and bit 31 is the sign, worth -2048; so
/// it lies in -2048..=2047.
pub proof fn law_s_imm(insn: u32)
    ensures
        s_imm(insn) == ((insn >> 25) & 0x3f) * 32 + ((insn >> 7) & 0x1f) - (if insn >> 31 == 0 {
            0int
        } else {
            2048int
        }),
        -2048 <= s_imm(insn) <= 2047,
{
    crate::backend::fold::lemma_shift_bits();
    assert(((32 - 12) as u32) == 20u32);
    let v = (((insn >> 25) & 0x7f) << 5) | ((insn >> 7) & 0x1f);
    assert((((v << 20u32) as i32) >> 20u32) as i64 == (((((insn >> 25u32) & 0x3fu32) as i64) * 32i64 + (((insn >> 7u32)
        & 0x1fu32) as i64)) as i64 - (if insn >> 31u32 == 0u32 {
        0i64
    } else {
        2048i64
    })) as i64);
    assert((insn >> 25) & 0x3f <= 0x3f) by {
        vstd::bits::lemma_u32_low_bits_mask_is_mod(insn >> 25, 6);
        vstd::bits::lemma_low_bits_mask_values();
        vstd::arithmetic::power2::lemma2_to64();
    }
    assert((insn >> 7) & 0x1f <= 0x1f) by {
        vstd::bits::lemma_u32_low_bits_mask_is_mod(insn >> 7, 5);
        vstd::bits::lemma_low_bits_mask_values();
        vstd::arithmetic::power2::lemma2_to64();
    }
}

/// The J-type jump offset: bits 19:12 of the instruction count in units of
/// 4096, bit 20 is worth 2048, bits 30:21 count in units of 2, and bit 31
/// is the sign, worth -2^20; so the offset is even.
pub proof fn law_j_imm(insn: u32)
    ensures
        j_imm(insn) == ((insn >> 12) & 0xff) * 4096 + ((insn >> 20) & 1) * 2048 + ((insn >> 21) & 0x3ff) * 2 - (if insn
            >> 31 == 0 {
            0int
        } else {
            0x10_0000int
        }),
        j_imm(insn) % 2 == 0,
{
    crate::backend::fold::lemma_shift_bits();
    assert(((32 - 21) as u32) == 11u32);
    let v = (((insn >> 31) & 1) << 20) | (((insn >> 12) & 0xff) << 12) | (((insn >> 20) & 1) << 11) | (((insn >> 21)
        & 0x3ff) << 1);
    assert((((v << 11u32) as i32) >> 11u32) as i64 == ((((((insn >> 12u32) & 0xffu32) as i64) * 4096i64 + (((insn
        >> 20u32) & 1u32) as i64) * 2048i64) as i64 + (((insn >> 21u32) & 0x3ffu32) as i64) * 2i64) as i64 - (if insn
        >> 31u32 == 0u32 {
        0i64
    } else {
        0x10_0000i64
    })) as i64);
    assert((insn >> 12) & 0xff <= 0xff) by {
        vstd::bits::lemma_u32_low_bits_mask_is_mod(insn >> 12, 8);
        vstd::bits::lemma_low_bits_mask_values();
        vstd::arithmetic::power2::lemma2_to64();
    }
    assert((insn >> 20) & 1 <= 1) by {
        vstd::bits::lemma_u32_low_bits_mask_is_mod(insn >> 20, 1);
        vstd::bits::lemma_low_bits_mask_values();
        vstd::arithmetic::power2::lemma2_to64();
    }
    assert((insn >> 21) & 0x3ff <= 0x3ff) by {
        vstd::bits::lemma_u32_low_bits_mask_is_mod(insn >> 21, 10);
        vstd::bits::lemma_low_bits_mask_values();
        vstd::arithmetic::power2::lemma2_to64();
    }
}

} // verus!
