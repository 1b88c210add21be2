use vstd::prelude::*;
use vstd::string::StringSliceAdditionalSpecFns;

use crate::text::{dec, hex, lit, put_dec, put_hex, put_str};

pub mod parse;

pub use parse::{
    count_bit_tokens, format_hex, is_inline_field, merge_continuations, parse_argset, parse_bit_tokens, parse_field,
    parse_field_segment, to_camel,
    BitPatternResult,
};

verus! {

/// A bit range of an instruction: `len` bits from bit `pos`, sign-extended
/// when `signed`.
#[derive(Clone, Copy, Debug)]
pub struct FieldSegment {
    pub pos: u32,
    pub len: u32,
    pub signed: bool,
}

/// A named field made of segments concatenated most significant first,
/// optionally passed through a transform function.
#[derive(Clone, Debug)]
pub struct Field {
    pub name: String,
    pub segments: Vec<FieldSegment>,
    pub func: Option<String>,
}

/// A named set of arguments: the fields of the argument struct that the
/// decoder hands to a translator, or one defined elsewhere when `is_extern`.
#[derive(Clone, Debug)]
pub struct ArgSet {
    pub name: String,
    pub fields: Vec<String>,
    pub is_extern: bool,
}

/// How a pattern obtains an argument.
#[derive(Clone, Debug)]
pub enum FieldMapping {
    /// From a named field's extractor.
    FieldRef(String),
    /// From bits of the instruction itself.
    Inline { pos: u32, len: u32, signed: bool },
    /// A constant.
    Const(i32),
}

/// Whether `c` may appear in a bit pattern token.
pub open spec fn spec_is_bit_char(c: char) -> bool {
    c == '0' || c == '1' || c == '.' || c == '-'
}

/// Whether `c` may appear in a bit pattern token.
pub fn is_bit_char(c: char) -> (r: bool)
    ensures
        r == spec_is_bit_char(c),
{
    c == '0' || c == '1' || c == '.' || c == '-'
}

/// Whether `s` is a non-empty token of bit pattern characters.
pub fn is_bit_token(s: &str) -> (r: bool)
    ensures
        r == (s@.len() > 0 && forall|i: int| 0 <= i < s@.len() ==> spec_is_bit_char(#[trigger] s@[i])),
{
    broadcast use vstd::string::is_ascii_spec_bytes;

    if s.is_empty() {
        return false;
    }
    if !s.is_ascii() {
        assert(!vstd::utf8::is_ascii_chars(s@));
        assert(exists|i: int| 0 <= i < s@.len() && !spec_is_bit_char(s@[i])) by {
            let i = choose|i: int| 0 <= i < s@.len() && !('\0' <= #[trigger] s@[i] <= '\u{7f}');
            assert(!spec_is_bit_char(s@[i]));
        }
        return false;
    }
    let b = s.as_bytes();
    assert(b@ =~= Seq::new(s@.len(), |i| s@.index(i) as u8));
    let mut k: usize = 0;
    while k < b.len()
        invariant
            b@ == Seq::new(s@.len(), |i| s@.index(i) as u8),
            vstd::utf8::is_ascii_chars(s@),
            k <= b@.len(),
            forall|i: int| 0 <= i < k ==> spec_is_bit_char(#[trigger] s@[i]),
        decreases b@.len() - k,
    {
        let x = b[k];
        assert('\0' <= s@[k as int] <= '\u{7f}');
        if !(x == 48 || x == 49 || x == 46 || x == 45) {
            assert(!spec_is_bit_char(s@[k as int]));
            return false;
        }
        k = k + 1;
    }
    true
}

/// The bytes of a string.
pub open spec fn sbytes(s: String) -> Seq<u8> {
    vstd::utf8::encode_utf8(s@)
}

fn put_string(out: &mut Vec<u8>, s: &String)
    ensures
        final(out)@ == old(out)@ + sbytes(*s),
{
    let t = s.as_str();
    put_str(out, t);
}

/// `2^len - 1`: the mask of `len` low bits.
pub open spec fn low_mask(len: u32) -> nat {
    (vstd::arithmetic::power2::pow2(len as nat) - 1) as nat
}

fn mask_of(len: u32) -> (r: u32)
    requires
        len < 32,
    ensures
        r == low_mask(len),
{
    proof {
        vstd::bits::lemma_u32_pow2_no_overflow(len as nat);
        vstd::bits::lemma_u32_shl_is_mul(1, len);
    }
    (1u32 << len) - 1
}

/// The instruction and signed integer types for an instruction width.
pub open spec fn insn_ty(width: u32) -> &'static str {
    if width <= 16 {
        "u16"
    } else {
        "u32"
    }
}

pub open spec fn signed_ty(width: u32) -> &'static str {
    if width <= 16 {
        "i16"
    } else {
        "i32"
    }
}

/// A field segment can be extracted from a `width`-bit instruction.
pub open spec fn segment_ok(s: FieldSegment, width: u32) -> bool {
    if s.signed {
        s.pos + s.len <= width
    } else {
        s.len < 32
    }
}

/// The line that extracts the only segment of a field into `val`.
pub open spec fn single_line(s: FieldSegment, width: u32) -> Seq<u8> {
    if s.signed {
        let lshift = width - s.pos - s.len;
        let rshift = width - s.len;
        if lshift == 0 {
            lit("    let val = (insn as ") + lit(signed_ty(width)) + lit(") >> ") + dec(rshift as nat) + lit(";\n")
        } else {
            lit("    let val = ((insn as ") + lit(signed_ty(width)) + lit(") << ") + dec(lshift as nat) + lit(
                ") >> ",
            ) + dec(rshift as nat) + lit(";\n")
        }
    } else {
        lit("    let val = (insn >> ") + dec(s.pos as nat) + lit(") & 0x") + hex(low_mask(s.len)) + lit(";\n")
    }
}

/// The line that extracts the first of several segments into `val`.
pub open spec fn first_line(s: FieldSegment, width: u32) -> Seq<u8> {
    if s.signed {
        let lshift = width - s.pos - s.len;
        let rshift = width - s.len;
        if lshift == 0 {
            lit("    let mut val: i64 = ((insn as ") + lit(signed_ty(width)) + lit(") >> ") + dec(rshift as nat) + lit(
                ") as i64;\n",
            )
        } else {
            lit("    let mut val: i64 = (((insn as ") + lit(signed_ty(width)) + lit(") << ") + dec(lshift as nat)
                + lit(") >> ") + dec(rshift as nat) + lit(") as i64;\n")
        }
    } else {
        lit("    let mut val: i64 = ((insn >> ") + dec(s.pos as nat) + lit(") & 0x") + hex(low_mask(s.len)) + lit(
            ") as i64;\n",
        )
    }
}

/// The line that appends a further segment to `val`.
pub open spec fn next_line(s: FieldSegment) -> Seq<u8> {
    lit("    val = (val << ") + dec(s.len as nat) + lit(") | ((insn >> ") + dec(s.pos as nat) + lit(") & 0x") + hex(
        low_mask(s.len),
    ) + lit(") as i64;\n")
}

/// The lines appending segments 1..n.
pub open spec fn next_lines(segs: Seq<FieldSegment>, n: nat) -> Seq<u8>
    decreases n,
{
    if n <= 1 || n > segs.len() {
        Seq::empty()
    } else {
        next_lines(segs, (n - 1) as nat) + next_line(segs[n - 1])
    }
}

/// The result line(s) of an extractor, through the transform `func` of the
/// expression `cast`.
pub open spec fn transform_lines(func: Seq<u8>, cast: Seq<u8>) -> Seq<u8> {
    if func == lit("ex_shift_1") {
        lit("    (") + cast + lit(") << 1\n")
    } else if func == lit("ex_shift_2") {
        lit("    (") + cast + lit(") << 2\n")
    } else if func == lit("ex_shift_3") {
        lit("    (") + cast + lit(") << 3\n")
    } else if func == lit("ex_shift_4") {
        lit("    (") + cast + lit(") << 4\n")
    } else if func == lit("ex_shift_12") {
        lit("    (") + cast + lit(") << 12\n")
    } else if func == lit("ex_rvc_register") {
        lit("    (") + cast + lit(") + 8\n")
    } else if func == lit("ex_sreg_register") {
        lit("    [8,9,18,19,20,21,22,23][(") + cast + lit(") as usize & 7]\n")
    } else if func == lit("ex_rvc_shiftli") || func == lit("ex_rvc_shiftri") {
        lit("    ") + cast + lit("\n")
    } else {
        lit("    // unknown func: ") + func + lit("\n    ") + cast + lit("\n")
    }
}

/// The extractor function generated for `field`.
pub open spec fn extract_text(field: Field, width: u32) -> Seq<u8> {
    let segs = field.segments@;
    let cast = if segs.len() == 1 {
        lit("val as i64")
    } else {
        lit("val")
    };
    lit("fn extract_") + sbytes(field.name) + lit("(insn: ") + lit(insn_ty(width)) + lit(") -> i64 {\n") + (
    if segs.len() == 1 {
        single_line(segs[0], width)
    } else {
        first_line(segs[0], width) + next_lines(segs, segs.len())
    }) + match field.func {
        Some(f) => transform_lines(sbytes(f), cast),
        None => lit("    ") + cast + lit("\n"),
    } + lit("}\n\n")
}

/// The extraction code of a field of a `width`-bit instruction can be
/// generated: it has segments, each of which fits.
pub open spec fn field_ok(field: Field, width: u32) -> bool {
    &&& field.segments@.len() > 0
    &&& segment_ok(field.segments@[0], width)
    &&& forall|i: int| 1 <= i < field.segments@.len() ==> (#[trigger] field.segments@[i]).len < 32
}

/// Whether `a` has the bytes of the string `b`.
fn bytes_are(a: &[u8], b: &str) -> (r: bool)
    ensures
        r == (a@ == lit(b)),
{
    let y = b.as_bytes();
    if a.len() != y.len() {
        return false;
    }
    let mut i: usize = 0;
    while i < a.len()
        invariant
            y@ == lit(b),
            a@.len() == y@.len(),
            i <= a@.len(),
            forall|k: int| 0 <= k < i ==> a@[k] == y@[k],
        decreases a@.len() - i,
    {
        if a[i] != y[i] {
            return false;
        }
        i = i + 1;
    }
    assert(a@ =~= y@);
    true
}

fn put_transform(out: &mut Vec<u8>, func: &String, cast: &str)
    ensures
        final(out)@ == old(out)@ + transform_lines(sbytes(*func), lit(cast)),
{
    let f = func.as_str().as_bytes();
    assert(f@ == sbytes(*func));
    let ghost o0 = out@;
    if bytes_are(f, "ex_shift_1") {
        put_str(out, "    (");
        put_str(out, cast);
        put_str(out, ") << 1\n");
    } else if bytes_are(f, "ex_shift_2") {
        put_str(out, "    (");
        put_str(out, cast);
        put_str(out, ") << 2\n");
    } else if bytes_are(f, "ex_shift_3") {
        put_str(out, "    (");
        put_str(out, cast);
        put_str(out, ") << 3\n");
    } else if bytes_are(f, "ex_shift_4") {
        put_str(out, "    (");
        put_str(out, cast);
        put_str(out, ") << 4\n");
    } else if bytes_are(f, "ex_shift_12") {
        put_str(out, "    (");
        put_str(out, cast);
        put_str(out, ") << 12\n");
    } else if bytes_are(f, "ex_rvc_register") {
        put_str(out, "    (");
        put_str(out, cast);
        put_str(out, ") + 8\n");
    } else if bytes_are(f, "ex_sreg_register") {
        put_str(out, "    [8,9,18,19,20,21,22,23][(");
        put_str(out, cast);
        put_str(out, ") as usize & 7]\n");
    } else if bytes_are(f, "ex_rvc_shiftli") || bytes_are(f, "ex_rvc_shiftri") {
        put_str(out, "    ");
        put_str(out, cast);
        put_str(out, "\n");
    } else {
        put_str(out, "    // unknown func: ");
        put_string(out, func);
        put_str(out, "\n    ");
        put_str(out, cast);
        put_str(out, "\n");
    }
    assert(out@ =~= o0 + transform_lines(sbytes(*func), lit(cast)));
}

fn put_single(out: &mut Vec<u8>, s: FieldSegment, width: u32)
    requires
        segment_ok(s, width),
    ensures
        final(out)@ == old(out)@ + single_line(s, width),
{
    let ghost o0 = out@;
    let sty = if width <= 16 {
        "i16"
    } else {
        "i32"
    };
    if s.signed {
        let lshift = width - s.pos - s.len;
        let rshift = width - s.len;
        if lshift == 0 {
            put_str(out, "    let val = (insn as ");
            put_str(out, sty);
            put_str(out, ") >> ");
            put_dec(out, rshift as u64);
            put_str(out, ";\n");
        } else {
            put_str(out, "    let val = ((insn as ");
            put_str(out, sty);
            put_str(out, ") << ");
            put_dec(out, lshift as u64);
            put_str(out, ") >> ");
            put_dec(out, rshift as u64);
            put_str(out, ";\n");
        }
    } else {
        put_str(out, "    let val = (insn >> ");
        put_dec(out, s.pos as u64);
        put_str(out, ") & 0x");
        put_hex(out, mask_of(s.len) as u64);
        put_str(out, ";\n");
    }
    assert(out@ =~= o0 + single_line(s, width));
}

fn put_first(out: &mut Vec<u8>, s: FieldSegment, width: u32)
    requires
        segment_ok(s, width),
    ensures
        final(out)@ == old(out)@ + first_line(s, width),
{
    let ghost o0 = out@;
    let sty = if width <= 16 {
        "i16"
    } else {
        "i32"
    };
    if s.signed {
        let lshift = width - s.pos - s.len;
        let rshift = width - s.len;
        if lshift == 0 {
            put_str(out, "    let mut val: i64 = ((insn as ");
            put_str(out, sty);
            put_str(out, ") >> ");
            put_dec(out, rshift as u64);
            put_str(out, ") as i64;\n");
        } else {
            put_str(out, "    let mut val: i64 = (((insn as ");
            put_str(out, sty);
            put_str(out, ") << ");
            put_dec(out, lshift as u64);
            put_str(out, ") >> ");
            put_dec(out, rshift as u64);
            put_str(out, ") as i64;\n");
        }
    } else {
        put_str(out, "    let mut val: i64 = ((insn >> ");
        put_dec(out, s.pos as u64);
        put_str(out, ") & 0x");
        put_hex(out, mask_of(s.len) as u64);
        put_str(out, ") as i64;\n");
    }
    assert(out@ =~= o0 + first_line(s, width));
}

/// Generate the extractor function of `field` for `width`-bit
/// instructions: it takes the field's segments out of the instruction
/// (sign-extending signed ones), joins them most significant first, and
/// applies the field's transform.
pub fn emit_extract_field(field: &Field, width: u32) -> (r: Vec<u8>)
    requires
        field_ok(*field, width),
    ensures
        r@ == extract_text(*field, width),
{
    let mut out: Vec<u8> = Vec::new();
    put_str(&mut out, "fn extract_");
    put_string(&mut out, &field.name);
    put_str(&mut out, "(insn: ");
    put_str(
        &mut out,
        if width <= 16 {
            "u16"
        } else {
            "u32"
        },
    );
    put_str(&mut out, ") -> i64 {\n");
    let ghost head = out@;
    let segs = &field.segments;
    assert(segment_ok(segs@[0], width));
    if segs.len() == 1 {
        put_single(&mut out, segs[0], width);
    } else {
        put_first(&mut out, segs[0], width);
        let ghost mid = out@;
        let mut k: usize = 1;
        while k < segs.len()
            invariant
                1 <= k <= segs@.len(),
                field_ok(*field, width),
                *segs == field.segments,
                out@ == mid + next_lines(segs@, k as nat),
            decreases segs@.len() - k,
        {
            let s = segs[k];
            assert(segs@[k as int].len < 32);
            put_str(&mut out, "    val = (val << ");
            put_dec(&mut out, s.len as u64);
            put_str(&mut out, ") | ((insn >> ");
            put_dec(&mut out, s.pos as u64);
            put_str(&mut out, ") & 0x");
            put_hex(&mut out, mask_of(s.len) as u64);
            put_str(&mut out, ") as i64;\n");
            assert(out@ =~= mid + next_lines(segs@, (k + 1) as nat));
            k = k + 1;
        }
    }
    let ghost body = out@;
    let cast = if segs.len() == 1 {
        "val as i64"
    } else {
        "val"
    };
    match &field.func {
        Some(f) => put_transform(&mut out, f, cast),
        None => {
            put_str(&mut out, "    ");
            put_str(&mut out, cast);
            put_str(&mut out, "\n");
        },
    }
    put_str(&mut out, "}\n\n");
    assert(out@ =~= extract_text(*field, width));
    out
}

/// A signed decimal number.
pub open spec fn sdec(c: int) -> Seq<u8> {
    if c < 0 {
        lit("-") + dec((-c) as nat)
    } else {
        dec(c as nat)
    }
}

/// The expression that computes an argument from its mapping.
pub open spec fn field_expr(m: FieldMapping, width: u32) -> Seq<u8> {
    match m {
        FieldMapping::FieldRef(r) => lit("extract_") + sbytes(r) + lit("(insn)"),
        FieldMapping::Inline { pos, len, signed } => if signed {
            lit("(((insn as ") + lit(signed_ty(width)) + lit(") << ") + dec((width - pos - len) as nat) + lit(
                ") >> ",
            ) + dec((width - len) as nat) + lit(") as i64")
        } else {
            lit("((insn >> ") + dec(pos as nat) + lit(") & 0x") + hex(low_mask(len)) + lit(") as i64")
        },
        FieldMapping::Const(c) => sdec(c as int) + lit("_i64"),
    }
}

/// The mapping's expression can be generated.
pub open spec fn mapping_ok(m: FieldMapping, width: u32) -> bool {
    match m {
        FieldMapping::Inline { pos, len, signed } => segment_ok(FieldSegment { pos, len, signed }, width),
        _ => true,
    }
}

/// Generate the expression that computes an argument from its mapping.
pub fn emit_field_expr(mapping: &FieldMapping, width: u32) -> (r: Vec<u8>)
    requires
        mapping_ok(*mapping, width),
    ensures
        r@ == field_expr(*mapping, width),
{
    let mut out: Vec<u8> = Vec::new();
    match mapping {
        FieldMapping::FieldRef(r) => {
            put_str(&mut out, "extract_");
            put_string(&mut out, r);
            put_str(&mut out, "(insn)");
        },
        FieldMapping::Inline { pos, len, signed } => {
            if *signed {
                put_str(&mut out, "(((insn as ");
                put_str(
                    &mut out,
                    if width <= 16 {
                        "i16"
                    } else {
                        "i32"
                    },
                );
                put_str(&mut out, ") << ");
                put_dec(&mut out, (width - *pos - *len) as u64);
                put_str(&mut out, ") >> ");
                put_dec(&mut out, (width - *len) as u64);
                put_str(&mut out, ") as i64");
            } else {
                put_str(&mut out, "((insn >> ");
                put_dec(&mut out, *pos as u64);
                put_str(&mut out, ") & 0x");
                put_hex(&mut out, mask_of(*len) as u64);
                put_str(&mut out, ") as i64");
            }
        },
        FieldMapping::Const(c) => {
            if *c < 0 {
                put_str(&mut out, "-");
                put_dec(&mut out, (-(*c as i64)) as u64);
            } else {
                put_dec(&mut out, *c as u64);
            }
            put_str(&mut out, "_i64");
        },
    }
    assert(out@ =~= field_expr(*mapping, width));
    out
}

/// Whether `t` ends with `p`.
pub open spec fn ends_with(t: Seq<u8>, p: Seq<u8>) -> bool {
    p.len() <= t.len() && t.subrange(t.len() - p.len(), t.len() as int) == p
}

proof fn lemma_ascii_concat(w: &str, a: &str, b: &str)
    requires
        vstd::string::is_ascii(w),
        vstd::string::is_ascii(a),
        vstd::string::is_ascii(b),
        w@ =~= a@ + b@,
    ensures
        lit(w) == lit(a) + lit(b),
{
    broadcast use vstd::string::is_ascii_spec_bytes;

    assert(lit(w) =~= lit(a) + lit(b));
}

proof fn lemma_lits_differ(a: &str, b: &str, k: int)
    requires
        vstd::string::is_ascii(a),
        vstd::string::is_ascii(b),
        a@.len() != b@.len() || (0 <= k < a@.len() && k < b@.len() && a@[k] != b@[k]),
    ensures
        lit(a) != lit(b),
{
    broadcast use vstd::string::is_ascii_spec_bytes;

    if lit(a) == lit(b) {
        assert(a@.len() == b@.len());
        assert(a@ =~= b@) by {
            assert forall|i: int| 0 <= i < a@.len() implies a@[i] == b@[i] by {
                assert(lit(a)[i] == lit(b)[i]);
            }
        }
    }
}

/// The generated extractor of `field` ends with `tail` and the closing
/// brace when its transform lines are `    (` `cast` `tail`.
proof fn lemma_extract_tail(field: Field, width: u32, tail: Seq<u8>)
    requires
        field.func matches Some(f) && transform_lines(
            sbytes(f),
            if field.segments@.len() == 1 {
                lit("val as i64")
            } else {
                lit("val")
            },
        ) == lit("    (") + (if field.segments@.len() == 1 {
            lit("val as i64")
        } else {
            lit("val")
        }) + tail,
    ensures
        ends_with(extract_text(field, width), tail + lit("}\n\n")),
{
    let segs = field.segments@;
    let cast = if segs.len() == 1 { lit("val as i64") } else { lit("val") };
    let t = extract_text(field, width);
    let end = tail + lit("}\n\n");
    let front = lit("fn extract_") + sbytes(field.name) + lit("(insn: ") + lit(insn_ty(width)) + lit(") -> i64 {\n") + (
    if segs.len() == 1 {
        single_line(segs[0], width)
    } else {
        first_line(segs[0], width) + next_lines(segs, segs.len())
    }) + lit("    (") + cast;
    assert(t =~= front + end);
    assert(t.subrange(t.len() - end.len(), t.len() as int) =~= end);
}

/// What the transform functions of a field do to the raw field value, as
/// the generated extractor ends: `ex_rvc_register` adds 8 (a 3-bit
/// compressed-register field names `x8`..`x15`), and `ex_shift_N` shifts
/// left by `N` for N = 1, 2, 3, 4 and 12 (scaled immediates).
pub proof fn law_transform_tails(field: Field, width: u32)
    requires
        field.func is Some,
    ensures
        sbytes(field.func->0) == lit("ex_rvc_register") ==> ends_with(extract_text(field, width), lit(") + 8\n}\n\n")),
        sbytes(field.func->0) == lit("ex_shift_1") ==> ends_with(extract_text(field, width), lit(") << 1\n}\n\n")),
        sbytes(field.func->0) == lit("ex_shift_2") ==> ends_with(extract_text(field, width), lit(") << 2\n}\n\n")),
        sbytes(field.func->0) == lit("ex_shift_3") ==> ends_with(extract_text(field, width), lit(") << 3\n}\n\n")),
        sbytes(field.func->0) == lit("ex_shift_4") ==> ends_with(extract_text(field, width), lit(") << 4\n}\n\n")),
        sbytes(field.func->0) == lit("ex_shift_12") ==> ends_with(extract_text(field, width), lit(") << 12\n}\n\n")),
{
    reveal_strlit("ex_rvc_register");
    reveal_strlit("ex_shift_1");
    reveal_strlit("ex_shift_2");
    reveal_strlit("ex_shift_3");
    reveal_strlit("ex_shift_4");
    reveal_strlit("ex_shift_12");
    reveal_strlit("}\n\n");
    reveal_strlit(") + 8\n");
    reveal_strlit(") << 1\n");
    reveal_strlit(") << 2\n");
    reveal_strlit(") << 3\n");
    reveal_strlit(") << 4\n");
    reveal_strlit(") << 12\n");
    reveal_strlit(") + 8\n}\n\n");
    reveal_strlit(") << 1\n}\n\n");
    reveal_strlit(") << 2\n}\n\n");
    reveal_strlit(") << 3\n}\n\n");
    reveal_strlit(") << 4\n}\n\n");
    reveal_strlit(") << 12\n}\n\n");
    lemma_lits_differ("ex_shift_2", "ex_shift_1", 9);
    lemma_lits_differ("ex_shift_3", "ex_shift_1", 9);
    lemma_lits_differ("ex_shift_3", "ex_shift_2", 9);
    lemma_lits_differ("ex_shift_4", "ex_shift_1", 9);
    lemma_lits_differ("ex_shift_4", "ex_shift_2", 9);
    lemma_lits_differ("ex_shift_4", "ex_shift_3", 9);
    lemma_lits_differ("ex_shift_12", "ex_shift_1", 0);
    lemma_lits_differ("ex_shift_12", "ex_shift_2", 0);
    lemma_lits_differ("ex_shift_12", "ex_shift_3", 0);
    lemma_lits_differ("ex_shift_12", "ex_shift_4", 0);
    lemma_lits_differ("ex_rvc_register", "ex_shift_1", 0);
    lemma_lits_differ("ex_rvc_register", "ex_shift_2", 0);
    lemma_lits_differ("ex_rvc_register", "ex_shift_3", 0);
    lemma_lits_differ("ex_rvc_register", "ex_shift_4", 0);
    lemma_lits_differ("ex_rvc_register", "ex_shift_12", 0);
    let f = sbytes(field.func->0);
    if f == lit("ex_rvc_register") {
        lemma_ascii_concat(") + 8\n}\n\n", ") + 8\n", "}\n\n");
        lemma_extract_tail(field, width, lit(") + 8\n"));
    } else if f == lit("ex_shift_1") {
        lemma_ascii_concat(") << 1\n}\n\n", ") << 1\n", "}\n\n");
        lemma_extract_tail(field, width, lit(") << 1\n"));
    } else if f == lit("ex_shift_2") {
        lemma_ascii_concat(") << 2\n}\n\n", ") << 2\n", "}\n\n");
        lemma_extract_tail(field, width, lit(") << 2\n"));
    } else if f == lit("ex_shift_3") {
        lemma_ascii_concat(") << 3\n}\n\n", ") << 3\n", "}\n\n");
        lemma_extract_tail(field, width, lit(") << 3\n"));
    } else if f == lit("ex_shift_4") {
        lemma_ascii_concat(") << 4\n}\n\n", ") << 4\n", "}\n\n");
        lemma_extract_tail(field, width, lit(") << 4\n"));
    } else if f == lit("ex_shift_12") {
        lemma_ascii_concat(") << 12\n}\n\n", ") << 12\n", "}\n\n");
        lemma_extract_tail(field, width, lit(") << 12\n"));
    }
}

/// A field whose transform is `ex_rvc_register` (a compressed-register
/// field) gets an extractor that adds 8 to the raw field value, so that a
/// 3-bit field names `x8`..`x15`: the generated function ends with
/// `) + 8` and the closing brace.
pub proof fn law_rvc_register_adds_8(field: Field, width: u32)
    requires
        field.func matches Some(f) && sbytes(f) == lit("ex_rvc_register"),
    ensures
        ends_with(extract_text(field, width), lit(") + 8\n}\n\n")),
{
    law_transform_tails(field, width);
}

/// The generated extractor of a field with a transform ends with that
/// transform's lines and the closing brace.
proof fn lemma_extract_ends(field: Field, width: u32)
    requires
        field.func is Some,
    ensures
        ends_with(
            extract_text(field, width),
            transform_lines(
                sbytes(field.func->0),
                if field.segments@.len() == 1 {
                    lit("val as i64")
                } else {
                    lit("val")
                },
            ) + lit("}\n\n"),
        ),
{
    let segs = field.segments@;
    let cast = if segs.len() == 1 { lit("val as i64") } else { lit("val") };
    let t = extract_text(field, width);
    let end = transform_lines(sbytes(field.func->0), cast) + lit("}\n\n");
    let front = lit("fn extract_") + sbytes(field.name) + lit("(insn: ") + lit(insn_ty(width)) + lit(") -> i64 {\n") + (
    if segs.len() == 1 {
        single_line(segs[0], width)
    } else {
        first_line(segs[0], width) + next_lines(segs, segs.len())
    });
    assert(t =~= front + end);
    assert(t.subrange(t.len() - end.len(), t.len() as int) =~= end);
}

/// The transform lines of `ex_sreg_register`.
proof fn lemma_sreg_lines(cast: Seq<u8>)
    ensures
        transform_lines(lit("ex_sreg_register"), cast) == lit("    [8,9,18,19,20,21,22,23][(")
            + cast + lit(") as usize & 7]\n"),
{
    reveal_strlit("ex_sreg_register");
    reveal_strlit("ex_rvc_register");
    reveal_strlit("ex_shift_1");
    reveal_strlit("ex_shift_2");
    reveal_strlit("ex_shift_3");
    reveal_strlit("ex_shift_4");
    reveal_strlit("ex_shift_12");
    lemma_lits_differ("ex_sreg_register", "ex_shift_1", 4);
    lemma_lits_differ("ex_sreg_register", "ex_shift_2", 4);
    lemma_lits_differ("ex_sreg_register", "ex_shift_3", 4);
    lemma_lits_differ("ex_sreg_register", "ex_shift_4", 4);
    lemma_lits_differ("ex_sreg_register", "ex_shift_12", 4);
    lemma_lits_differ("ex_sreg_register", "ex_rvc_register", 3);
}

/// The last line and closing brace of an `ex_sreg_register` extractor on
/// `val as i64`, in bytes.
proof fn lemma_sreg_text_single()
    ensures
        lit("    [8,9,18,19,20,21,22,23][(") + lit("val as i64") + lit(") as usize & 7]\n") + lit("}\n\n") == lit(
            "    [8,9,18,19,20,21,22,23][(val as i64) as usize & 7]\n}\n\n",
        ),
{
    reveal_strlit("    [8,9,18,19,20,21,22,23][(");
    reveal_strlit(") as usize & 7]\n");
    reveal_strlit("}\n\n");
    reveal_strlit("val as i64");
    reveal_strlit("    [8,9,18,19,20,21,22,23][(val as i64");
    reveal_strlit("    [8,9,18,19,20,21,22,23][(val as i64) as usize & 7]\n");
    reveal_strlit("    [8,9,18,19,20,21,22,23][(val as i64) as usize & 7]\n}\n\n");
    lemma_ascii_concat("    [8,9,18,19,20,21,22,23][(val as i64", "    [8,9,18,19,20,21,22,23][(", "val as i64");
    lemma_ascii_concat("    [8,9,18,19,20,21,22,23][(val as i64) as usize & 7]\n", "    [8,9,18,19,20,21,22,23][(val as i64", ") as usize & 7]\n");
    lemma_ascii_concat("    [8,9,18,19,20,21,22,23][(val as i64) as usize & 7]\n}\n\n", "    [8,9,18,19,20,21,22,23][(val as i64) as usize & 7]\n", "}\n\n");
}

/// The last line and closing brace of an `ex_sreg_register` extractor on
/// `val`, in bytes.
proof fn lemma_sreg_text_joined()
    ensures
        lit("    [8,9,18,19,20,21,22,23][(") + lit("val") + lit(") as usize & 7]\n") + lit("}\n\n") == lit(
            "    [8,9,18,19,20,21,22,23][(val) as usize & 7]\n}\n\n",
        ),
{
    reveal_strlit("    [8,9,18,19,20,21,22,23][(");
    reveal_strlit(") as usize & 7]\n");
    reveal_strlit("}\n\n");
    reveal_strlit("val");
    reveal_strlit("    [8,9,18,19,20,21,22,23][(val");
    reveal_strlit("    [8,9,18,19,20,21,22,23][(val) as usize & 7]\n");
    reveal_strlit("    [8,9,18,19,20,21,22,23][(val) as usize & 7]\n}\n\n");
    lemma_ascii_concat("    [8,9,18,19,20,21,22,23][(val", "    [8,9,18,19,20,21,22,23][(", "val");
    lemma_ascii_concat("    [8,9,18,19,20,21,22,23][(val) as usize & 7]\n", "    [8,9,18,19,20,21,22,23][(val", ") as usize & 7]\n");
    lemma_ascii_concat("    [8,9,18,19,20,21,22,23][(val) as usize & 7]\n}\n\n", "    [8,9,18,19,20,21,22,23][(val) as usize & 7]\n", "}\n\n");
}

/// A field whose transform is `ex_sreg_register` (the saved-register field
/// of the compressed push/pop instructions) gets an extractor that looks the
/// low three bits of the raw value up in the table `s0, s1, s2`..`s7`, that
/// is registers 8, 9 and 18 to 23.
pub proof fn law_sreg_register_table(field: Field, width: u32)
    requires
        field.func matches Some(f) && sbytes(f) == lit("ex_sreg_register"),
    ensures
        field.segments@.len() == 1 ==> ends_with(
            extract_text(field, width),
            lit("    [8,9,18,19,20,21,22,23][(val as i64) as usize & 7]\n}\n\n"),
        ),
        field.segments@.len() != 1 ==> ends_with(
            extract_text(field, width),
            lit("    [8,9,18,19,20,21,22,23][(val) as usize & 7]\n}\n\n"),
        ),
{
    lemma_extract_ends(field, width);
    lemma_sreg_lines(lit("val as i64"));
    lemma_sreg_lines(lit("val"));
    lemma_sreg_text_single();
    lemma_sreg_text_joined();
}

/// The line that extracts a single segment: an unsigned segment is shifted
/// right by its position and masked with `2^len - 1`; a signed segment is
/// read as the signed integer of the instruction's width (`i32`, or `i16`
/// for 16-bit instructions) and shifted left until its top bit is the sign
/// bit, then arithmetically right until its low bit is bit 0 (the left
/// shift omitted when it is 0).
pub proof fn law_segment_line(s: FieldSegment, width: u32)
    requires
        segment_ok(s, width),
    ensures
        !s.signed ==> exists|m: nat|
            m + 1 == vstd::arithmetic::power2::pow2(s.len as nat) && #[trigger] single_line(s, width) == lit(
                "    let val = (insn >> ",
            ) + dec(s.pos as nat) + lit(") & 0x") + hex(m) + lit(";\n"),
        s.signed && s.pos + s.len < width ==> exists|l: nat, r: nat|
            l + s.pos + s.len == width && r + s.len == width && #[trigger] single_line(s, width) == lit(
                "    let val = ((insn as ",
            ) + lit(if width > 16 { "i32" } else { "i16" }) + lit(") << ") + dec(l) + lit(") >> ") + dec(r) + lit(";\n"),
        s.signed && s.pos + s.len == width ==> exists|r: nat|
            r + s.len == width && #[trigger] single_line(s, width) == lit("    let val = (insn as ") + lit(
                if width > 16 { "i32" } else { "i16" },
            ) + lit(") >> ") + dec(r) + lit(";\n"),
{
    vstd::arithmetic::power2::lemma_pow2_pos(s.len as nat);
    if !s.signed {
        let m = low_mask(s.len);
        assert(m + 1 == vstd::arithmetic::power2::pow2(s.len as nat));
        assert(single_line(s, width) == lit("    let val = (insn >> ") + dec(s.pos as nat) + lit(") & 0x") + hex(m) + lit(";\n"));
    } else if s.pos + s.len < width {
        let l = (width - s.pos - s.len) as nat;
        let r = (width - s.len) as nat;
        assert(single_line(s, width) == lit("    let val = ((insn as ") + lit(if width > 16 { "i32" } else { "i16" }) + lit(") << ")
            + dec(l) + lit(") >> ") + dec(r) + lit(";\n"));
    } else {
        let r = (width - s.len) as nat;
        assert(single_line(s, width) == lit("    let val = (insn as ") + lit(if width > 16 { "i32" } else { "i16" }) + lit(
            ") >> ",
        ) + dec(r) + lit(";\n"));
    }
}

} // verus!
