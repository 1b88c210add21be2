use vstd::prelude::*;

use crate::opcode::Opcode;
use crate::temp::TempIdx;
use crate::types::{Cond, Type};

verus! {

/// The bits of a value of type `ty`: 32 for `I32`, else all 64.
pub open spec fn spec_type_mask(ty: Type) -> u64 {
    if ty == Type::I32 {
        0xFFFF_FFFFu64
    } else {
        0xFFFF_FFFF_FFFF_FFFFu64
    }
}

/// Truncation mask for a type.
pub fn type_mask(ty: Type) -> (r: u64)
    ensures
        r == spec_type_mask(ty),
{
    match ty {
        Type::I32 => 0xFFFF_FFFF,
        _ => 0xFFFF_FFFF_FFFF_FFFF,
    }
}

/// `v` rotated left by `s` bits (64-bit).
pub open spec fn rotl64(v: u64, s: u32) -> u64 {
    if s == 0 {
        v
    } else {
        (v << s) | (v >> ((64 - s) as u32))
    }
}

/// `v` rotated right by `s` bits (64-bit).
pub open spec fn rotr64(v: u64, s: u32) -> u64 {
    if s == 0 {
        v
    } else {
        (v >> s) | (v << ((64 - s) as u32))
    }
}

/// `v` rotated left by `s` bits (32-bit).
pub open spec fn rotl32(v: u32, s: u32) -> u32 {
    if s == 0 {
        v
    } else {
        (v << s) | (v >> ((32 - s) as u32))
    }
}

/// `v` rotated right by `s` bits (32-bit).
pub open spec fn rotr32(v: u32, s: u32) -> u32 {
    if s == 0 {
        v
    } else {
        (v >> s) | (v << ((32 - s) as u32))
    }
}

fn rotate_left64(v: u64, s: u32) -> (r: u64)
    requires
        s < 64,
    ensures
        r == rotl64(v, s),
{
    if s == 0 {
        v
    } else {
        (v << s) | (v >> (64 - s))
    }
}

fn rotate_right64(v: u64, s: u32) -> (r: u64)
    requires
        s < 64,
    ensures
        r == rotr64(v, s),
{
    if s == 0 {
        v
    } else {
        (v >> s) | (v << (64 - s))
    }
}

fn rotate_left32(v: u32, s: u32) -> (r: u32)
    requires
        s < 32,
    ensures
        r == rotl32(v, s),
{
    if s == 0 {
        v
    } else {
        (v << s) | (v >> (32 - s))
    }
}

fn rotate_right32(v: u32, s: u32) -> (r: u32)
    requires
        s < 32,
    ensures
        r == rotr32(v, s),
{
    if s == 0 {
        v
    } else {
        (v >> s) | (v << (32 - s))
    }
}

/// The shift count of a shift or rotate by `b` on type `ty`: `b` modulo the
/// width in bits.
pub open spec fn shift_count(b: u64, ty: Type) -> u32 {
    ((b as u32) % ty.spec_size_bits()) as u32
}

/// The value of the binary op `opc` on the constants `a` and `b` of type
/// `ty` before truncation to the type; `None` for an op that is not folded.
pub open spec fn spec_raw_binary(opc: Opcode, a: u64, b: u64, ty: Type) -> Option<u64> {
    let mask = spec_type_mask(ty);
    let sh = shift_count(b, ty);
    match opc {
        Opcode::Add => Some(vstd::wrapping::u64_specs::wrapping_add(a, b)),
        Opcode::Sub => Some(vstd::wrapping::u64_specs::wrapping_sub(a, b)),
        Opcode::Mul => Some(vstd::wrapping::u64_specs::wrapping_mul(a, b)),
        Opcode::And => Some(a & b),
        Opcode::Or => Some(a | b),
        Opcode::Xor => Some(a ^ b),
        Opcode::AndC => Some(a & !b),
        Opcode::Shl => Some(a << (sh % 64)),
        Opcode::Shr => Some((a & mask) >> (sh % 64)),
        Opcode::Sar => if ty == Type::I32 {
            Some((((a as u32) as i32) >> sh) as u64)
        } else {
            Some(((a as i64) >> (sh % 64)) as u64)
        },
        Opcode::RotL => if ty == Type::I32 {
            Some(rotl32(a as u32, sh) as u64)
        } else {
            Some(rotl64(a, sh % 64))
        },
        Opcode::RotR => if ty == Type::I32 {
            Some(rotr32(a as u32, sh) as u64)
        } else {
            Some(rotr64(a, sh % 64))
        },
        _ => None,
    }
}

/// The value of the binary op `opc` on the constants `a` and `b` of type
/// `ty`, truncated to the type; `None` for an op that is not folded.
pub open spec fn spec_eval_binary(opc: Opcode, a: u64, b: u64, ty: Type) -> Option<u64> {
    match spec_raw_binary(opc, a, b, ty) {
        Some(v) => Some(v & spec_type_mask(ty)),
        None => None,
    }
}

/// Evaluate a binary op on two constants; `None` for an op that is not
/// folded.
pub fn eval_binary(opc: Opcode, a: u64, b: u64, ty: Type) -> (r: Option<u64>)
    ensures
        r == spec_eval_binary(opc, a, b, ty),
{
    let mask = type_mask(ty);
    let bits = ty.size_bits();
    let sh = (b as u32) % bits;
    let r = match opc {
        Opcode::Add => a.wrapping_add(b),
        Opcode::Sub => a.wrapping_sub(b),
        Opcode::Mul => a.wrapping_mul(b),
        Opcode::And => a & b,
        Opcode::Or => a | b,
        Opcode::Xor => a ^ b,
        Opcode::AndC => a & !b,
        Opcode::Shl => a.wrapping_shl(sh),
        Opcode::Shr => (a & mask).wrapping_shr(sh),
        Opcode::Sar => {
            if ty == Type::I32 {
                (((a as u32) as i32) >> sh) as u64
            } else {
                ((a as i64) >> (sh % 64)) as u64
            }
        },
        Opcode::RotL => {
            if ty == Type::I32 {
                rotate_left32(a as u32, sh) as u64
            } else {
                rotate_left64(a, sh % 64)
            }
        },
        Opcode::RotR => {
            if ty == Type::I32 {
                rotate_right32(a as u32, sh) as u64
            } else {
                rotate_right64(a, sh % 64)
            }
        },
        _ => {
            return None;
        },
    };
    Some(r & mask)
}

/// The signed value of the constant `x` of type `ty`: its low 32 bits
/// sign-extended for a 32-bit type, all 64 bits otherwise.
pub open spec fn signed_val(x: u64, ty: Type) -> i64 {
    if ty == Type::I32 {
        ((x as u32) as i32) as i64
    } else {
        x as i64
    }
}

/// The outcome of the comparison `cond` on the constants `a` and `b` of type
/// `ty`, compared in the type's width: `Lt`, `Ge`, `Le` and `Gt` as signed
/// numbers, the others on the bits.
pub open spec fn spec_eval_cond(a: u64, b: u64, cond: Cond, ty: Type) -> bool {
    let mask = spec_type_mask(ty);
    let x = a & mask;
    let y = b & mask;
    match cond {
        Cond::Always => true,
        Cond::Never => false,
        Cond::Eq => x == y,
        Cond::Ne => x != y,
        Cond::Lt => signed_val(a, ty) < signed_val(b, ty),
        Cond::Ge => signed_val(a, ty) >= signed_val(b, ty),
        Cond::Le => signed_val(a, ty) <= signed_val(b, ty),
        Cond::Gt => signed_val(a, ty) > signed_val(b, ty),
        Cond::Ltu => x < y,
        Cond::Geu => x >= y,
        Cond::Leu => x <= y,
        Cond::Gtu => x > y,
        Cond::TstEq => x & y == 0,
        Cond::TstNe => x & y != 0,
    }
}

/// Evaluate a comparison on two constants.
pub fn eval_cond(a: u64, b: u64, cond: Cond, ty: Type) -> (r: bool)
    ensures
        r == spec_eval_cond(a, b, cond, ty),
{
    let sa: i64 = if ty == Type::I32 { ((a as u32) as i32) as i64 } else { a as i64 };
    let sb: i64 = if ty == Type::I32 { ((b as u32) as i32) as i64 } else { b as i64 };
    let mask = type_mask(ty);
    let a = a & mask;
    let b = b & mask;
    match cond {
        Cond::Always => true,
        Cond::Never => false,
        Cond::Eq => a == b,
        Cond::Ne => a != b,
        Cond::Lt => sa < sb,
        Cond::Ge => sa >= sb,
        Cond::Le => sa <= sb,
        Cond::Gt => sa > sb,
        Cond::Ltu => a < b,
        Cond::Geu => a >= b,
        Cond::Leu => a <= b,
        Cond::Gtu => a > b,
        Cond::TstEq => (a & b) == 0,
        Cond::TstNe => (a & b) != 0,
    }
}

/// The condition an op argument encodes; `Never` for a value that encodes
/// none.
pub open spec fn spec_cond_from_carg(t: TempIdx) -> Cond {
    if Cond::is_code(t.0) {
        Cond::spec_from_code(t.0)
    } else {
        Cond::Never
    }
}

/// Decode a condition argument.
pub fn cond_from_carg(t: TempIdx) -> (r: Cond)
    ensures
        r == spec_cond_from_carg(t),
{
    match Cond::from_u32(t.0) {
        Some(c) => c,
        None => Cond::Never,
    }
}

/// What an op becomes once its known operands are used.
#[derive(Debug, Clone, Copy, PartialEq, Eq, Structural)]
pub enum Rewrite {
    /// Left as it is.
    Keep,
    /// `dst = constant`.
    Const(u64),
    /// `dst = a` (the first operand).
    MovA,
    /// `dst = b` (the second operand).
    MovB,
    /// `dst = -b`.
    NegB,
}

/// The algebraic identities with one known operand: `a` and `b` are the
/// constants known for the operands, if any.
pub open spec fn spec_simplify(opc: Opcode, ty: Type, a: Option<u64>, b: Option<u64>) -> Rewrite {
    let mask = spec_type_mask(ty);
    let bk = match b {
        Some(v) => Some(v & mask),
        None => None,
    };
    let ak = match a {
        Some(v) => Some(v & mask),
        None => None,
    };
    if bk == Some(0u64) && matches!(opc, Opcode::Add | Opcode::Sub | Opcode::Or | Opcode::Xor | Opcode::Shl
        | Opcode::Shr | Opcode::Sar | Opcode::RotL | Opcode::RotR) {
        Rewrite::MovA
    } else if bk == Some(0u64) && matches!(opc, Opcode::Mul | Opcode::And) {
        Rewrite::Const(0)
    } else if bk == Some(1u64) && opc is Mul {
        Rewrite::MovA
    } else if bk == Some(mask) && opc is And {
        Rewrite::MovA
    } else if bk == Some(mask) && opc is Or {
        Rewrite::Const(mask)
    } else if bk == Some(mask) && opc is AndC {
        Rewrite::Const(0)
    } else if ak == Some(0u64) && opc is Add {
        Rewrite::MovB
    } else if ak == Some(0u64) && opc is Sub {
        Rewrite::NegB
    } else if ak == Some(0u64) && matches!(opc, Opcode::Mul | Opcode::And) {
        Rewrite::Const(0)
    } else if ak == Some(mask) && opc is Or {
        Rewrite::Const(mask)
    } else {
        Rewrite::Keep
    }
}

/// The rewrite for an algebraic identity with one known operand.
pub fn simplify_rule(opc: Opcode, ty: Type, a: Option<u64>, b: Option<u64>) -> (r: Rewrite)
    ensures
        r == spec_simplify(opc, ty, a, b),
{
    let mask = type_mask(ty);
    if let Some(bv) = b {
        let bk = bv & mask;
        if bk == 0 && matches!(opc, Opcode::Add | Opcode::Sub | Opcode::Or | Opcode::Xor | Opcode::Shl
            | Opcode::Shr | Opcode::Sar | Opcode::RotL | Opcode::RotR) {
            return Rewrite::MovA;
        }
        if bk == 0 && matches!(opc, Opcode::Mul | Opcode::And) {
            return Rewrite::Const(0);
        }
        if bk == 1 && opc == Opcode::Mul {
            return Rewrite::MovA;
        }
        if bk == mask && opc == Opcode::And {
            return Rewrite::MovA;
        }
        if bk == mask && opc == Opcode::Or {
            return Rewrite::Const(mask);
        }
        if bk == mask && opc == Opcode::AndC {
            return Rewrite::Const(0);
        }
    }
    if let Some(av) = a {
        let ak = av & mask;
        if ak == 0 && opc == Opcode::Add {
            return Rewrite::MovB;
        }
        if ak == 0 && opc == Opcode::Sub {
            return Rewrite::NegB;
        }
        if ak == 0 && matches!(opc, Opcode::Mul | Opcode::And) {
            return Rewrite::Const(0);
        }
        if ak == mask && opc == Opcode::Or {
            return Rewrite::Const(mask);
        }
    }
    Rewrite::Keep
}

/// What the folding of a binary op gives: the value when both operands are
/// known, else an identity with one known operand, else an identity of equal
/// operands (`x & x`, `x | x` are `x`; `x ^ x`, `x - x` are 0).
pub open spec fn spec_fold_binary(opc: Opcode, ty: Type, a: Option<u64>, b: Option<u64>, same: bool) -> Rewrite {
    let mask = spec_type_mask(ty);
    if a is Some && b is Some && spec_eval_binary(opc, a->0 & mask, b->0 & mask, ty) is Some {
        Rewrite::Const(spec_eval_binary(opc, a->0 & mask, b->0 & mask, ty)->0)
    } else if spec_simplify(opc, ty, a, b) != Rewrite::Keep {
        spec_simplify(opc, ty, a, b)
    } else if same && matches!(opc, Opcode::And | Opcode::Or) {
        Rewrite::MovA
    } else if same && matches!(opc, Opcode::Xor | Opcode::Sub) {
        Rewrite::Const(0)
    } else {
        Rewrite::Keep
    }
}

/// The rewrite of a binary op, given what is known of its operands.
pub fn fold_binary_rule(opc: Opcode, ty: Type, a: Option<u64>, b: Option<u64>, same: bool) -> (r: Rewrite)
    ensures
        r == spec_fold_binary(opc, ty, a, b, same),
{
    let mask = type_mask(ty);
    if let (Some(av), Some(bv)) = (a, b) {
        if let Some(v) = eval_binary(opc, av & mask, bv & mask, ty) {
            return Rewrite::Const(v);
        }
    }
    let s = simplify_rule(opc, ty, a, b);
    if s != Rewrite::Keep {
        return s;
    }
    if same {
        match opc {
            Opcode::And | Opcode::Or => {
                return Rewrite::MovA;
            },
            Opcode::Xor | Opcode::Sub => {
                return Rewrite::Const(0);
            },
            _ => {},
        }
    }
    Rewrite::Keep
}

/// The value of `neg` on `v` in type `ty`.
pub open spec fn spec_neg(v: u64, ty: Type) -> u64 {
    vstd::wrapping::u64_specs::wrapping_sub(0, v) & spec_type_mask(ty)
}

/// The bit identities behind the folding rules, for both widths.
pub proof fn lemma_fold_bits(x: u64, y: u64, z: u64, m: u64)
    requires
        m == 0xFFFF_FFFFu64 || m == 0xFFFF_FFFF_FFFF_FFFFu64,
    ensures
        (z & m) & m == z & m,
        ((x & m) | 0) & m == x & m,
        ((x & m) ^ 0) & m == x & m,
        ((x & m) & 0) & m == 0,
        ((x & m) & m) & m == x & m,
        ((x & m) | m) & m == m,
        ((x & m) & !m) & m == 0,
        ((x & m) << 0u64) & m == x & m,
        (((x & m) & m) >> 0u64) & m == x & m,
        (((((x & m) as u32) as i32) >> 0u32) as u64) & m == x & m || m != 0xFFFF_FFFFu64,
        ((((x & m) as i64) >> 0u64) as u64) & m == x & m,
        (((x & m) as u32) as u64) & m == x & m || m != 0xFFFF_FFFFu64,
        (0 & (y & m)) & m == 0,
        (m | (y & m)) & m == m,
        ((x & m) & (x & m)) & m == x & m,
        ((x & m) | (x & m)) & m == x & m,
        ((x & m) ^ (x & m)) & m == 0,
        (x & m) & (y & m) == (y & m) & (x & m),
        (if y & m == 0 { 0u64 } else { (0x1_0000_0000_0000_0000int - (y & m)) as u64 }) & m == (if y
            == 0 {
            0u64
        } else {
            (0x1_0000_0000_0000_0000int - y) as u64
        }) & m,
{
    assert({
        &&& (z & m) & m == z & m
        &&& ((x & m) | 0) & m == x & m
        &&& ((x & m) ^ 0) & m == x & m
        &&& ((x & m) & 0) & m == 0
        &&& ((x & m) & m) & m == x & m
        &&& ((x & m) | m) & m == m
        &&& ((x & m) & !m) & m == 0
        &&& ((x & m) << 0u64) & m == x & m
        &&& (((x & m) & m) >> 0u64) & m == x & m
        &&& ((((((x & m) as u32) as i32) >> 0u32) as u64) & m == x & m || m != 0xFFFF_FFFFu64)
        &&& ((((x & m) as i64) >> 0u64) as u64) & m == x & m
        &&& ((((x & m) as u32) as u64) & m == x & m || m != 0xFFFF_FFFFu64)
        &&& (0 & (y & m)) & m == 0
        &&& (m | (y & m)) & m == m
        &&& ((x & m) & (x & m)) & m == x & m
        &&& ((x & m) | (x & m)) & m == x & m
        &&& ((x & m) ^ (x & m)) & m == 0
        &&& (x & m) & (y & m) == (y & m) & (x & m)
        &&& (if y & m == 0 { 0u64 } else { (0x1_0000_0000_0000_0000int - (y & m)) as u64 }) & m == (if y
            == 0 {
            0u64
        } else {
            (0x1_0000_0000_0000_0000int - y) as u64
        }) & m
    }) by (bit_vector)
        requires
            m == 0xFFFF_FFFFu64 || m == 0xFFFF_FFFF_FFFF_FFFFu64,
    ;
}

/// Folding a binary op is sound: for any operand values `x` and `y` that
/// agree with what is known of them (`a`, `b`, and `same` when both operands
/// are one temp), the rewrite computes the op's value in the op's width —
/// the constant it installs, the operand it copies, or the negation it
/// emits.
pub proof fn lemma_fold_binary_sound(
    opc: Opcode,
    ty: Type,
    x: u64,
    y: u64,
    a: Option<u64>,
    b: Option<u64>,
    same: bool,
)
    requires
        a matches Some(va) ==> va == x,
        b matches Some(vb) ==> vb == y,
        same ==> x == y,
        spec_eval_binary(opc, x & spec_type_mask(ty), y & spec_type_mask(ty), ty) is Some,
    ensures
        ({
            let m = spec_type_mask(ty);
            let v = spec_eval_binary(opc, x & m, y & m, ty)->0;
            match spec_fold_binary(opc, ty, a, b, same) {
                Rewrite::Const(c) => c & m == v,
                Rewrite::MovA => x & m == v,
                Rewrite::MovB => y & m == v,
                Rewrite::NegB => spec_neg(y, ty) == v,
                Rewrite::Keep => true,
            }
        }),
{
    let m = spec_type_mask(ty);
    let raw = spec_raw_binary(opc, x & m, y & m, ty)->0;
    assert(m == 0xFFFF_FFFFu64 || m == 0xFFFF_FFFF_FFFF_FFFFu64);
    lemma_fold_bits(x, y, raw, m);
    lemma_fold_bits(x, y, x, m);
    lemma_fold_bits(y, x, y, m);
    assert(ty.spec_size_bits() > 0);
    assert(shift_count(0, ty) == 0);
}

/// Inverting a condition negates its outcome, and swapping it matches
/// swapping the operands.
pub proof fn lemma_eval_cond_invert_swap(a: u64, b: u64, cond: Cond, ty: Type)
    ensures
        spec_eval_cond(a, b, cond.spec_invert(), ty) == !spec_eval_cond(a, b, cond, ty),
        spec_eval_cond(b, a, cond.spec_swap(), ty) == spec_eval_cond(a, b, cond, ty),
{
    let m = spec_type_mask(ty);
    assert(m == 0xFFFF_FFFFu64 || m == 0xFFFF_FFFF_FFFF_FFFFu64);
    lemma_fold_bits(a, b, a, m);
}

/// Truncating twice to a type is truncating once.
pub proof fn lemma_mask_twice(v: u64, m: u64)
    requires
        m == 0xFFFF_FFFFu64 || m == 0xFFFF_FFFF_FFFF_FFFFu64,
    ensures
        (v & m) & m == v & m,
{
    lemma_fold_bits(v, v, v, m);
}

/// Bit facts behind the folding and encoding laws: an arithmetic right
/// shift fills the vacated bits with copies of the sign bit (and so is the
/// complement of a logical shift of the complement when the sign bit is
/// set); an all-ones mask keeps a value; the low 32 bits of a bitwise
/// operation are the operation on the low 32 bits; a rotate right undoes a
/// rotate left; sign extension from 32 bits and of the RISC-V I, S, B
/// and J immediates; setting one bit of a 32-bit
/// value leaves the others; the x86 opcode and ModR/M bytes of the register-form
/// instructions; and the members of the one-register sets RAX, RCX, RDX.
pub proof fn lemma_shift_bits()
    by (bit_vector)
    ensures
        forall|x: u32, s: u32|
            #![trigger ((x as i32) >> s)]
            s < 32 ==> ((((x as i32) >> s) as u64) & 0xFFFF_FFFFu64) == (if x & 0x8000_0000u32 == 0u32 {
                (x >> s) as u64
            } else {
                (!((!x) >> s)) as u64
            }),
        forall|x: u64, s: u32|
            #![trigger ((x as i64) >> s)]
            s < 64 ==> (((x as i64) >> s) as u64) == (if x & 0x8000_0000_0000_0000u64 == 0u64 {
                x >> s
            } else {
                !((!x) >> s)
            }),
        forall|v: u64| #![trigger (v & 0xFFFF_FFFF_FFFF_FFFFu64)] (v & 0xFFFF_FFFF_FFFF_FFFFu64) == v,
        ((0xD3u32 | 0x1000u32) as u8) == 0xD3u8,
        ((0xD3u32 | 0u32) as u8) == 0xD3u8,
        forall|l: u8| #![trigger ((0xC0u8 | (7u8 << 3u8)) | l)] ((0xC0u8 | (7u8 << 3u8)) | l) == (0xF8u8 | l),
        forall|l: u8| #![trigger ((0xC0u8 | (5u8 << 3u8)) | l)] ((0xC0u8 | (5u8 << 3u8)) | l) == (0xE8u8 | l),
        forall|l: u8| #![trigger ((0xC0u8 | (4u8 << 3u8)) | l)] ((0xC0u8 | (4u8 << 3u8)) | l) == (0xE0u8 | l),
        forall|l: u8| #![trigger ((0xC0u8 | (0u8 << 3u8)) | l)] ((0xC0u8 | (0u8 << 3u8)) | l) == (0xC0u8 | l),
        forall|l: u8| #![trigger ((0xC0u8 | (1u8 << 3u8)) | l)] ((0xC0u8 | (1u8 << 3u8)) | l) == (0xC8u8 | l),
        forall|a: u64, s: u32|
            #![trigger ((a & 0xFFFF_FFFFu64) >> s)]
            s < 32 ==> (((a & 0xFFFF_FFFFu64) >> s) & 0xFFFF_FFFFu64) == ((a as u32) >> s) as u64,
        forall|a: u64, s: u32|
            #![trigger (a << s)]
            s < 32 ==> ((a << s) & 0xFFFF_FFFFu64) == ((a as u32) << s) as u64,
        forall|x: u64| #![trigger (x & 0xFFFF_FFFFu64)] (x & 0xFFFF_FFFFu64) == x % 0x1_0000_0000u64 && (x
            & 0xFFFF_FFFFu64) == (x as u32) as u64,
        forall|a: u64, b: u64| #![trigger (a & b)] ((a & b) & 0xFFFF_FFFFu64) == ((a as u32) & (b as u32)) as u64,
        forall|a: u64, b: u64| #![trigger (a | b)] ((a | b) & 0xFFFF_FFFFu64) == ((a as u32) | (b as u32)) as u64,
        forall|a: u64, b: u64| #![trigger (a ^ b)] ((a ^ b) & 0xFFFF_FFFFu64) == ((a as u32) ^ (b as u32)) as u64,
        forall|a: u64, b: u64| #![trigger (a & !b)] ((a & !b) & 0xFFFF_FFFFu64) == ((a as u32) & !(b as u32)) as u64,
        forall|f: u32|
            #![trigger ((0x03u32 | (1u32 << 3u32)) | f)]
            f == 0u32 || f == 0x1000u32 ==> ((0x03u32 | (1u32 << 3u32)) | f) as u8 == 0x0Bu8,
        forall|f: u32|
            #![trigger ((0x03u32 | (4u32 << 3u32)) | f)]
            f == 0u32 || f == 0x1000u32 ==> ((0x03u32 | (4u32 << 3u32)) | f) as u8 == 0x23u8,
        forall|f: u32|
            #![trigger ((0x03u32 | (6u32 << 3u32)) | f)]
            f == 0u32 || f == 0x1000u32 ==> ((0x03u32 | (6u32 << 3u32)) | f) as u8 == 0x33u8,
        forall|f: u32| #![trigger (0xF7u32 | f)] f == 0u32 || f == 0x1000u32 ==> (0xF7u32 | f) as u8 == 0xF7u8,
        forall|f: u32|
            #![trigger ((0xAFu32 | 0x100u32) | f)]
            f == 0u32 || f == 0x1000u32 ==> ((0xAFu32 | 0x100u32) | f) as u8 == 0xAFu8,
        forall|l: u8| #![trigger ((0xC0u8 | (3u8 << 3u8)) | l)] ((0xC0u8 | (3u8 << 3u8)) | l) == (0xD8u8 | l),
        forall|l: u8| #![trigger ((0xC0u8 | (2u8 << 3u8)) | l)] ((0xC0u8 | (2u8 << 3u8)) | l) == (0xD0u8 | l),
        forall|r: u64| #![trigger ((1u64 << 0u8) >> r)] r < 64 ==> ((((1u64 << 0u8) >> r) & 1u64 == 1u64) <==> r == 0),
        forall|r: u64| #![trigger ((1u64 << 1u8) >> r)] r < 64 ==> ((((1u64 << 1u8) >> r) & 1u64 == 1u64) <==> r == 1),
        forall|r: u64| #![trigger ((1u64 << 2u8) >> r)] r < 64 ==> ((((1u64 << 2u8) >> r) & 1u64 == 1u64) <==> r == 2),
        forall|v: u64|
            #![trigger (v & 0x8000_0000u64)]
            ((((v as u32) as i32) as i64) as u64) == (if v & 0x8000_0000u64 == 0u64 {
                v & 0xFFFF_FFFFu64
            } else {
                (v & 0xFFFF_FFFFu64) | 0xFFFF_FFFF_0000_0000u64
            }),
        forall|v: u64| #![trigger (v >> 32u64)] ((v >> 32u64) & 0xFFFF_FFFFu64) == v / 0x1_0000_0000u64,
        forall|x: u32, q: u32| #![trigger (x | (1u32 << q))] q < 32 ==> ((x | (1u32 << q)) >> q) & 1u32 == 1u32,
        forall|x: u32, q: u32, r: u32|
            #![trigger ((x | (1u32 << q)) >> r)]
            q < 32 && r < 32 && r != q ==> (((x | (1u32 << q)) >> r) & 1u32) == ((x >> r) & 1u32),
        forall|x: u32|
            #![trigger ((x >> 20u32) << 20u32)]
            (((((x >> 20u32) << 20u32) as i32) >> 20u32) as i64) == (if x >> 31u32 == 0u32 {
                (x >> 20u32) as i64
            } else {
                (((x >> 20u32) as i64) - 4096i64) as i64
            }),
        forall|x: u32|
            #![trigger ((((((x >> 31u32) & 1u32) << 12u32) | (((x >> 7u32) & 1u32) << 11u32)) | (((x >> 25u32) & 0x3fu32) << 5u32)) | (((x >> 8u32) & 0xfu32) << 1u32))]
            (((((((((x >> 31u32) & 1u32) << 12u32) | (((x >> 7u32) & 1u32) << 11u32)) | (((x >> 25u32) & 0x3fu32) << 5u32))
                | (((x >> 8u32) & 0xfu32) << 1u32)) << 19u32) as i32) >> 19u32) as i64 == ((((((x >> 7u32) & 1u32) as i64)
                * 2048i64 + (((x >> 25u32) & 0x3fu32) as i64) * 32i64) as i64 + (((x >> 8u32) & 0xfu32) as i64) * 2i64) as i64 - (if x
                >> 31u32 == 0u32 {
                0i64
            } else {
                4096i64
            })) as i64,
        forall|x: u32|
            #![trigger ((((x >> 25u32) & 0x7fu32) << 5u32) | ((x >> 7u32) & 0x1fu32))]
            (((((((x >> 25u32) & 0x7fu32) << 5u32) | ((x >> 7u32) & 0x1fu32)) << 20u32) as i32) >> 20u32) as i64 == (((((x
                >> 25u32) & 0x3fu32) as i64) * 32i64 + (((x >> 7u32) & 0x1fu32) as i64)) as i64 - (if x >> 31u32 == 0u32 {
                0i64
            } else {
                2048i64
            })) as i64,
        forall|x: u32|
            #![trigger ((((((x >> 31u32) & 1u32) << 20u32) | (((x >> 12u32) & 0xffu32) << 12u32)) | (((x >> 20u32) & 1u32) << 11u32)) | (((x >> 21u32) & 0x3ffu32) << 1u32))]
            (((((((((x >> 31u32) & 1u32) << 20u32) | (((x >> 12u32) & 0xffu32) << 12u32)) | (((x >> 20u32) & 1u32) << 11u32))
                | (((x >> 21u32) & 0x3ffu32) << 1u32)) << 11u32) as i32) >> 11u32) as i64 == ((((((x >> 12u32) & 0xffu32) as i64)
                * 4096i64 + (((x >> 20u32) & 1u32) as i64) * 2048i64) as i64 + (((x >> 21u32) & 0x3ffu32) as i64) * 2i64) as i64
                - (if x >> 31u32 == 0u32 {
                0i64
            } else {
                0x10_0000i64
            })) as i64,
        (0xBFCDu64 >> 1u64) & 1u64 != 1u64,
        (0xBFCAu64 >> 0u64) & 1u64 != 1u64,
        (0xBFCAu64 >> 2u64) & 1u64 != 1u64,
        forall|x: u32, s: u32, t: u32|
            #![trigger ((x << s) | (x >> t))]
            0 < s < 32 && s + t == 32 ==> ((((x << s) | (x >> t)) >> s) | (((x << s) | (x >> t)) << t)) == x,
        forall|x: u64, s: u32, t: u32|
            #![trigger ((x << s) | (x >> t))]
            0 < s < 64 && s + t == 64 ==> ((((x << s) | (x >> t)) >> s) | (((x << s) | (x >> t)) << t)) == x,
{
}

/// Folding an arithmetic right shift: on 32-bit constants the low 32 bits
/// of `a` are shifted right by the count modulo 32 and the vacated high bits
/// are copies of bit 31, so a negative value stays negative (the result is
/// the complement of the logical shift of the complement); on 64-bit
/// constants likewise with bit 63 and the count modulo 64.
pub proof fn law_sar_fold(a: u64, b: u64)
    ensures
        spec_eval_binary(Opcode::Sar, a, b, Type::I32) == Some(
            if (a as u32) & 0x8000_0000u32 == 0u32 {
                ((a as u32) >> ((b as u32) % 32)) as u64
            } else {
                (!((!(a as u32)) >> ((b as u32) % 32))) as u64
            },
        ),
        spec_eval_binary(Opcode::Sar, a, b, Type::I64) == Some(
            if a & 0x8000_0000_0000_0000u64 == 0u64 {
                a >> ((b as u32) % 64)
            } else {
                !((!a) >> ((b as u32) % 64))
            },
        ),
{
    lemma_shift_bits();
    let s32 = shift_count(b, Type::I32);
    let s64 = shift_count(b, Type::I64);
    assert(s32 == (b as u32) % 32);
    assert(s64 == (b as u32) % 64);
    assert(s64 % 64 == s64);
    assert(((((a as u32) as i32) >> s32) as u64) & 0xFFFF_FFFFu64 == (if (a as u32) & 0x8000_0000u32 == 0u32 {
        ((a as u32) >> s32) as u64
    } else {
        (!((!(a as u32)) >> s32)) as u64
    }));
    let v = ((a as i64) >> (s64 % 64)) as u64;
    assert(v & 0xFFFF_FFFF_FFFF_FFFFu64 == v);
}

/// Folding a logical right shift on 32-bit constants takes the low 32 bits
/// of `a` and shifts them right by the count modulo 32, filling with zeros;
/// a left shift keeps the low 32 bits of `a` shifted left by the count
/// modulo 32. On 64-bit constants the count is taken modulo 64.
pub proof fn law_shift_fold(a: u64, b: u64)
    ensures
        spec_eval_binary(Opcode::Shr, a, b, Type::I32) == Some(((a as u32) >> ((b as u32) % 32)) as u64),
        spec_eval_binary(Opcode::Shl, a, b, Type::I32) == Some(((a as u32) << ((b as u32) % 32)) as u64),
        spec_eval_binary(Opcode::Shr, a, b, Type::I64) == Some(a >> ((b as u32) % 64)),
        spec_eval_binary(Opcode::Shl, a, b, Type::I64) == Some(a << ((b as u32) % 64)),
{
    lemma_shift_bits();
    let s32 = shift_count(b, Type::I32);
    let s64 = shift_count(b, Type::I64);
    assert(s32 == (b as u32) % 32);
    assert(s64 == (b as u32) % 64);
    assert(s32 % 64 == s32);
    assert(s64 % 64 == s64);
    assert(((a & 0xFFFF_FFFFu64) >> s32) & 0xFFFF_FFFFu64 == ((a as u32) >> s32) as u64);
    assert((a << s32) & 0xFFFF_FFFFu64 == ((a as u32) << s32) as u64);
    let v = (a & 0xFFFF_FFFF_FFFF_FFFFu64) >> s64;
    assert(a & 0xFFFF_FFFF_FFFF_FFFFu64 == a);
    assert(v & 0xFFFF_FFFF_FFFF_FFFFu64 == v);
    let w = a << s64;
    assert(w & 0xFFFF_FFFF_FFFF_FFFFu64 == w);
}

/// Folding addition, subtraction and multiplication computes the exact
/// result modulo 2^32 for a 32-bit type and modulo 2^64 for a 64-bit one.
pub proof fn law_arith_fold(a: u64, b: u64)
    ensures
        spec_eval_binary(Opcode::Add, a, b, Type::I32) == Some(((a + b) % 0x1_0000_0000) as u64),
        spec_eval_binary(Opcode::Sub, a, b, Type::I32) == Some(((a - b) % 0x1_0000_0000) as u64),
        spec_eval_binary(Opcode::Mul, a, b, Type::I32) == Some(((a * b) % 0x1_0000_0000) as u64),
        spec_eval_binary(Opcode::Add, a, b, Type::I64) == Some(((a + b) % 0x1_0000_0000_0000_0000) as u64),
        spec_eval_binary(Opcode::Sub, a, b, Type::I64) == Some(((a - b) % 0x1_0000_0000_0000_0000) as u64),
        spec_eval_binary(Opcode::Mul, a, b, Type::I64) == Some(((a * b) % 0x1_0000_0000_0000_0000) as u64),
{
    lemma_shift_bits();
    let add = vstd::wrapping::u64_specs::wrapping_add(a, b);
    let sub = vstd::wrapping::u64_specs::wrapping_sub(a, b);
    let mul = vstd::wrapping::u64_specs::wrapping_mul(a, b);
    assert(add & 0xFFFF_FFFFu64 == add % 0x1_0000_0000u64);
    assert(sub & 0xFFFF_FFFFu64 == sub % 0x1_0000_0000u64);
    assert(mul & 0xFFFF_FFFFu64 == mul % 0x1_0000_0000u64);
    assert(add & 0xFFFF_FFFF_FFFF_FFFFu64 == add);
    assert(sub & 0xFFFF_FFFF_FFFF_FFFFu64 == sub);
    assert(mul & 0xFFFF_FFFF_FFFF_FFFFu64 == mul);
    assert((a + b) % 0x1_0000_0000_0000_0000 % 0x1_0000_0000 == (a + b) % 0x1_0000_0000) by (nonlinear_arith);
    assert((a - b) % 0x1_0000_0000_0000_0000 % 0x1_0000_0000 == (a - b) % 0x1_0000_0000) by (nonlinear_arith);
    assert((a * b) % 0x1_0000_0000_0000_0000 % 0x1_0000_0000 == (a * b) % 0x1_0000_0000) by (nonlinear_arith);
}

/// Folding the bitwise operations on 32-bit constants combines the low 32
/// bits of the operands bit by bit (`AndC` is `a` and not `b`); on 64-bit
/// constants all 64 bits.
pub proof fn law_logic_fold(a: u64, b: u64)
    ensures
        spec_eval_binary(Opcode::And, a, b, Type::I32) == Some(((a as u32) & (b as u32)) as u64),
        spec_eval_binary(Opcode::Or, a, b, Type::I32) == Some(((a as u32) | (b as u32)) as u64),
        spec_eval_binary(Opcode::Xor, a, b, Type::I32) == Some(((a as u32) ^ (b as u32)) as u64),
        spec_eval_binary(Opcode::AndC, a, b, Type::I32) == Some(((a as u32) & !(b as u32)) as u64),
        spec_eval_binary(Opcode::And, a, b, Type::I64) == Some(a & b),
        spec_eval_binary(Opcode::Or, a, b, Type::I64) == Some(a | b),
        spec_eval_binary(Opcode::Xor, a, b, Type::I64) == Some(a ^ b),
        spec_eval_binary(Opcode::AndC, a, b, Type::I64) == Some(a & !b),
{
    lemma_shift_bits();
    assert(((a & b) & 0xFFFF_FFFFu64) == ((a as u32) & (b as u32)) as u64);
    assert(((a | b) & 0xFFFF_FFFFu64) == ((a as u32) | (b as u32)) as u64);
    assert(((a ^ b) & 0xFFFF_FFFFu64) == ((a as u32) ^ (b as u32)) as u64);
    assert(((a & !b) & 0xFFFF_FFFFu64) == ((a as u32) & !(b as u32)) as u64);
    assert((a & b) & 0xFFFF_FFFF_FFFF_FFFFu64 == a & b);
    assert((a | b) & 0xFFFF_FFFF_FFFF_FFFFu64 == a | b);
    assert((a ^ b) & 0xFFFF_FFFF_FFFF_FFFFu64 == a ^ b);
    assert((a & !b) & 0xFFFF_FFFF_FFFF_FFFFu64 == a & !b);
}

/// Folding a rotate moves the bits shifted out at one end back in at the
/// other: on 32-bit constants the low 32 bits of `a` are rotated by the
/// count modulo 32, on 64-bit constants all bits by the count modulo 64; and
/// rotating right by a count undoes rotating left by it.
pub proof fn law_rotate_fold(a: u64, b: u64)
    ensures
        (b as u32) % 32 != 0 ==> spec_eval_binary(Opcode::RotL, a, b, Type::I32) == Some(
            (((a as u32) << ((b as u32) % 32)) | ((a as u32) >> (32 - (b as u32) % 32) as u32)) as u64,
        ),
        (b as u32) % 32 != 0 ==> spec_eval_binary(Opcode::RotR, a, b, Type::I32) == Some(
            (((a as u32) >> ((b as u32) % 32)) | ((a as u32) << (32 - (b as u32) % 32) as u32)) as u64,
        ),
        (b as u32) % 32 == 0 ==> spec_eval_binary(Opcode::RotL, a, b, Type::I32) == Some(a & 0xFFFF_FFFFu64),
        (b as u32) % 32 == 0 ==> spec_eval_binary(Opcode::RotR, a, b, Type::I32) == Some(a & 0xFFFF_FFFFu64),
        (b as u32) % 64 != 0 ==> spec_eval_binary(Opcode::RotL, a, b, Type::I64) == Some(
            (a << ((b as u32) % 64)) | (a >> (64 - (b as u32) % 64) as u32),
        ),
        (b as u32) % 64 != 0 ==> spec_eval_binary(Opcode::RotR, a, b, Type::I64) == Some(
            (a >> ((b as u32) % 64)) | (a << (64 - (b as u32) % 64) as u32),
        ),
        (b as u32) % 64 == 0 ==> spec_eval_binary(Opcode::RotL, a, b, Type::I64) == Some(a),
        (b as u32) % 64 == 0 ==> spec_eval_binary(Opcode::RotR, a, b, Type::I64) == Some(a),
        spec_eval_binary(Opcode::RotR, spec_eval_binary(Opcode::RotL, a, b, Type::I32).unwrap(), b, Type::I32)
            == Some(a & 0xFFFF_FFFFu64),
        spec_eval_binary(Opcode::RotR, spec_eval_binary(Opcode::RotL, a, b, Type::I64).unwrap(), b, Type::I64)
            == Some(a),
{
    lemma_shift_bits();
    let x = a as u32;
    let s32 = shift_count(b, Type::I32);
    let s64 = shift_count(b, Type::I64);
    assert(s32 == (b as u32) % 32);
    assert(s64 == (b as u32) % 64);
    assert(s64 % 64 == s64);
    assert(a & 0xFFFF_FFFFu64 == (a as u32) as u64);
    assert(a & 0xFFFF_FFFF_FFFF_FFFFu64 == a);
    let l32 = rotl32(x, s32);
    let r32 = rotr32(x, s32);
    assert(((l32 as u64) & 0xFFFF_FFFFu64) == ((l32 as u64) as u32) as u64);
    assert(((r32 as u64) & 0xFFFF_FFFFu64) == ((r32 as u64) as u32) as u64);
    let l64 = rotl64(a, s64);
    let r64 = rotr64(a, s64);
    assert(l64 & 0xFFFF_FFFF_FFFF_FFFFu64 == l64);
    assert(r64 & 0xFFFF_FFFF_FFFF_FFFFu64 == r64);
    if s32 != 0 {
        let t = (32 - s32) as u32;
        assert(((((x << s32) | (x >> t)) >> s32) | (((x << s32) | (x >> t)) << t)) == x);
    }
    assert(rotr32(l32, s32) == x);
    let back = rotr32(l32, s32) as u64;
    assert(back & 0xFFFF_FFFFu64 == ((back as u32) as u64));
    if s64 != 0 {
        let t = (64 - s64) as u32;
        assert(((((a << s64) | (a >> t)) >> s64) | (((a << s64) | (a >> t)) << t)) == a);
    }
    assert(rotr64(l64, s64) == a);
}

/// Comparisons of constants: `Eq`, `Ne` and the unsigned and test
/// conditions look at the type's bits, the signed ones at the type's signed
/// value; so for 32-bit operands `0xFFFF_FFFF < 0` holds signed (-1 < 0) but
/// not unsigned.
pub proof fn law_eval_cond(a: u64, b: u64)
    ensures
        spec_eval_cond(a, b, Cond::Eq, Type::I32) == ((a as u32) == (b as u32)),
        spec_eval_cond(a, b, Cond::Ne, Type::I32) == ((a as u32) != (b as u32)),
        spec_eval_cond(a, b, Cond::Lt, Type::I32) == (((a as u32) as i32) < ((b as u32) as i32)),
        spec_eval_cond(a, b, Cond::Ge, Type::I32) == (((a as u32) as i32) >= ((b as u32) as i32)),
        spec_eval_cond(a, b, Cond::Le, Type::I32) == (((a as u32) as i32) <= ((b as u32) as i32)),
        spec_eval_cond(a, b, Cond::Gt, Type::I32) == (((a as u32) as i32) > ((b as u32) as i32)),
        spec_eval_cond(a, b, Cond::Ltu, Type::I32) == ((a as u32) < (b as u32)),
        spec_eval_cond(a, b, Cond::Geu, Type::I32) == ((a as u32) >= (b as u32)),
        spec_eval_cond(a, b, Cond::Leu, Type::I32) == ((a as u32) <= (b as u32)),
        spec_eval_cond(a, b, Cond::Gtu, Type::I32) == ((a as u32) > (b as u32)),
        spec_eval_cond(a, b, Cond::Lt, Type::I64) == ((a as i64) < (b as i64)),
        spec_eval_cond(a, b, Cond::Ge, Type::I64) == ((a as i64) >= (b as i64)),
        spec_eval_cond(a, b, Cond::Le, Type::I64) == ((a as i64) <= (b as i64)),
        spec_eval_cond(a, b, Cond::Gt, Type::I64) == ((a as i64) > (b as i64)),
        spec_eval_cond(a, b, Cond::Ltu, Type::I64) == (a < b),
        spec_eval_cond(a, b, Cond::Geu, Type::I64) == (a >= b),
        spec_eval_cond(a, b, Cond::Leu, Type::I64) == (a <= b),
        spec_eval_cond(a, b, Cond::Gtu, Type::I64) == (a > b),
        spec_eval_cond(a, b, Cond::Eq, Type::I64) == (a == b),
        spec_eval_cond(a, b, Cond::Ne, Type::I64) == (a != b),
        spec_eval_cond(a, b, Cond::Always, Type::I64),
        !spec_eval_cond(a, b, Cond::Never, Type::I64),
{
    lemma_shift_bits();
    assert(a & 0xFFFF_FFFFu64 == a % 0x1_0000_0000u64);
    assert(b & 0xFFFF_FFFFu64 == b % 0x1_0000_0000u64);
    assert(a & 0xFFFF_FFFF_FFFF_FFFFu64 == a);
    assert(b & 0xFFFF_FFFF_FFFF_FFFFu64 == b);
}

} // verus!
