//! The lexical side of the decode-description format: tokens, bit
//! patterns, field segments, names and continuation lines.
use vstd::prelude::*;
use vstd::string::{StrSliceExecFns, StringExecFns};

use crate::decodetree::{spec_is_bit_char, ArgSet, Field, FieldSegment};
use crate::text::{hex, put_hex0x_pad, zpad};

verus! {

/// The characters of `s`, in order.
pub fn char_vec(s: &str) -> (v: Vec<char>)
    ensures
        v@ == s@,
{
    broadcast use vstd::string::axiom_spec_iter;

    let mut v: Vec<char> = Vec::new();
    for c in it: s.chars()
        invariant
            v@ == it.seq().take(it.index() as int),
            it.seq() == s@,
    {
        v.push(c);
    }
    v
}

/// Whether `c` has the Unicode `Alphanumeric` property, as `char::is_alphanumeric` decides.
pub uninterp spec fn unicode_alphanumeric(c: char) -> bool;

/// std's `char::is_alphanumeric`: whether `c` is Unicode-alphabetic or
/// Unicode-numeric. Its result is named, not spelled out.
#[verifier::external_body]
fn char_is_alphanumeric(c: char) -> (r: bool)
    ensures
        r == unicode_alphanumeric(c),
{
    c.is_alphanumeric()
}

/// std's `String::push`: appends `c`.
#[verifier::external_body]
fn push_char(s: &mut String, c: char)
    ensures
        final(s)@ == old(s)@.push(c),
{
    s.push(c)
}

/// A character of a bit pattern token.
pub open spec fn spec_bit_token(t: Seq<char>) -> bool {
    t.len() > 0 && forall|i: int| 0 <= i < t.len() ==> spec_is_bit_char(#[trigger] t[i])
}

pub open spec fn is_digit(c: char) -> bool {
    '0' <= c <= '9'
}

/// A character of a name: alphanumeric or `_`.
pub open spec fn name_char(c: char) -> bool {
    unicode_alphanumeric(c) || c == '_'
}

/// The first `c` in `s` is at `i`.
pub open spec fn first_at(s: Seq<char>, c: char, i: int) -> bool {
    0 <= i < s.len() && s[i] == c && forall|j: int| 0 <= j < i ==> s[j] != c
}

/// An inline field `name:len`: a non-empty name of name characters, the
/// first `:`, and a non-empty run of decimal digits.
pub open spec fn spec_inline_field(s: Seq<char>) -> bool {
    exists|i: int|
        #[trigger] first_at(s, ':', i) && i > 0 && (forall|j: int| 0 <= j < i ==> name_char(#[trigger] s[j]))
            && i + 1 < s.len() && (forall|j: int| i < j < s.len() ==> is_digit(#[trigger] s[j]))
}

/// Position of the first `c` in `cs`, or `cs.len()` when there is none.
fn find_char(cs: &Vec<char>, c: char) -> (i: usize)
    ensures
        i <= cs@.len(),
        forall|j: int| 0 <= j < i ==> cs@[j] != c,
        i < cs@.len() ==> cs@[i as int] == c,
{
    let mut i: usize = 0;
    while i < cs.len()
        invariant
            i <= cs@.len(),
            forall|j: int| 0 <= j < i ==> cs@[j] != c,
        decreases cs@.len() - i,
    {
        if cs[i] == c {
            return i;
        }
        i = i + 1;
    }
    i
}

proof fn lemma_first_unique(s: Seq<char>, c: char, i: int, k: int)
    requires
        first_at(s, c, i),
        first_at(s, c, k),
    ensures
        i == k,
{
    if i < k {
        assert(s[i] != c);
    } else if k < i {
        assert(s[k] != c);
    }
}

/// Whether every character of `cs[from..to]` is a decimal digit.
fn all_digits(cs: &Vec<char>, from: usize, to: usize) -> (r: bool)
    requires
        from <= to <= cs@.len(),
    ensures
        r == forall|j: int| from <= j < to ==> is_digit(#[trigger] cs@[j]),
{
    let mut j: usize = from;
    while j < to
        invariant
            from <= j <= to <= cs@.len(),
            forall|k: int| from <= k < j ==> is_digit(#[trigger] cs@[k]),
        decreases to - j,
    {
        let c = cs[j];
        if !('0' <= c && c <= '9') {
            return false;
        }
        j = j + 1;
    }
    true
}

/// Whether every character of `cs[..to]` is a name character.
fn all_name_chars(cs: &Vec<char>, to: usize) -> (r: bool)
    requires
        to <= cs@.len(),
    ensures
        r == forall|j: int| 0 <= j < to ==> name_char(#[trigger] cs@[j]),
{
    let mut j: usize = 0;
    while j < to
        invariant
            j <= to <= cs@.len(),
            forall|k: int| 0 <= k < j ==> name_char(#[trigger] cs@[k]),
        decreases to - j,
    {
        let c = cs[j];
        if !(char_is_alphanumeric(c) || c == '_') {
            return false;
        }
        j = j + 1;
    }
    true
}

/// Whether `s` is an inline field reference `name:len`.
pub fn is_inline_field(s: &str) -> (r: bool)
    ensures
        r == spec_inline_field(s@),
{
    let cs = char_vec(s);
    let i = find_char(&cs, ':');
    if i == cs.len() {
        assert forall|k: int| !first_at(s@, ':', k) by {
            if first_at(s@, ':', k) {
                assert(s@[k] != ':');
            }
        }
        return false;
    }
    assert(first_at(s@, ':', i as int));
    assert forall|k: int| #[trigger] first_at(s@, ':', k) implies k == i by {
        lemma_first_unique(s@, ':', i as int, k);
    }
    if i == 0 {
        return false;
    }
    if !all_name_chars(&cs, i) {
        return false;
    }
    if i + 1 >= cs.len() {
        return false;
    }
    all_digits(&cs, i + 1, cs.len())
}

/// What may open a pattern line: a bit token or an inline field.
pub open spec fn lead_token(t: Seq<char>) -> bool {
    spec_bit_token(t) || spec_inline_field(t)
}

/// The views of a sequence of strings.
pub open spec fn views(ts: Seq<&str>) -> Seq<Seq<char>> {
    ts.map_values(|t: &str| t@)
}

/// The number of leading tokens that are bit tokens or inline fields.
pub fn count_bit_tokens(tokens: &[&str]) -> (r: usize)
    ensures
        r <= tokens@.len(),
        forall|j: int| 0 <= j < r ==> lead_token(#[trigger] tokens@[j]@),
        r < tokens@.len() ==> !lead_token(tokens@[r as int]@),
{
    let mut k: usize = 0;
    while k < tokens.len()
        invariant
            k <= tokens@.len(),
            forall|j: int| 0 <= j < k ==> lead_token(#[trigger] tokens@[j]@),
        decreases tokens@.len() - k,
    {
        let t = tokens[k];
        if !(crate::decodetree::is_bit_token(t) || is_inline_field(t)) {
            return k;
        }
        k = k + 1;
    }
    k
}

// ---------------------------------------------------------------
// Decimal numbers
// ---------------------------------------------------------------

/// The value of a run of decimal digits.
pub open spec fn digits_val(d: Seq<char>) -> nat
    decreases d.len(),
{
    if d.len() == 0 {
        0
    } else {
        digits_val(d.drop_last()) * 10 + ((d.last() as u32) - 48) as nat
    }
}

/// Every character of `d` is a decimal digit.
pub open spec fn all_digit(d: Seq<char>) -> bool {
    forall|j: int| 0 <= j < d.len() ==> is_digit(#[trigger] d[j])
}

/// The digits of an unsigned number: `s` without a leading `+` that is not alone.
pub open spec fn unsigned_digits(s: Seq<char>) -> Seq<char> {
    if s.len() > 1 && s[0] == '+' {
        s.drop_first()
    } else {
        s
    }
}

/// `str::parse::<u32>`: an optional `+` (not alone), then one or more
/// decimal digits whose value fits in 32 bits.
pub open spec fn parse_u32(s: Seq<char>) -> Option<u32> {
    if s.len() > 0 && all_digit(unsigned_digits(s)) && digits_val(unsigned_digits(s)) <= u32::MAX {
        Some(digits_val(unsigned_digits(s)) as u32)
    } else {
        None
    }
}

/// Reads `cs[from..to]` as `str::parse::<u32>` does.
fn parse_u32_at(cs: &Vec<char>, from: usize, to: usize) -> (r: Option<u32>)
    requires
        from <= to <= cs@.len(),
    ensures
        r == parse_u32(cs@.subrange(from as int, to as int)),
{
    let ghost s = cs@.subrange(from as int, to as int);
    if from == to {
        return None;
    }
    let start: usize = if to - from > 1 && cs[from] == '+' { from + 1 } else { from };
    let ghost d = cs@.subrange(start as int, to as int);
    assert(d =~= unsigned_digits(s));
    let mut v: u64 = 0;
    let mut j: usize = start;
    while j < to
        invariant
            from <= start <= j <= to <= cs@.len(),
            from < to,
            s == cs@.subrange(from as int, to as int),
            d == cs@.subrange(start as int, to as int),
            d == unsigned_digits(s),
            forall|k: int| start <= k < j ==> is_digit(#[trigger] cs@[k]),
            v == digits_val(cs@.subrange(start as int, j as int)),
            v <= u32::MAX,
        decreases to - j,
    {
        let c = cs[j];
        if !('0' <= c && c <= '9') {
            assert(!is_digit(d[j - start]));
            return None;
        }
        let ghost p = cs@.subrange(start as int, j as int + 1);
        assert(p.drop_last() =~= cs@.subrange(start as int, j as int));
        let nv: u64 = v * 10 + ((c as u32) - 48) as u64;
        assert(nv == digits_val(p));
        if nv > 0xffff_ffff {
            proof {
                assert(p =~= d.subrange(0, j - start + 1));
                if all_digit(d) {
                    lemma_digits_val_grows(d, (j - start + 1) as int);
                }
            }
            return None;
        }
        v = nv;
        j = j + 1;
    }
    assert(cs@.subrange(start as int, to as int) =~= d);
    Some(v as u32)
}

/// A run of digits is worth at least any of its prefixes.
proof fn lemma_digits_val_grows(d: Seq<char>, k: int)
    requires
        0 <= k <= d.len(),
        forall|j: int| 0 <= j < d.len() ==> is_digit(#[trigger] d[j]),
    ensures
        digits_val(d.subrange(0, k)) <= digits_val(d),
    decreases d.len() - k,
{
    if k < d.len() {
        lemma_digits_val_grows(d, k + 1);
        let p = d.subrange(0, k + 1);
        assert(p.drop_last() =~= d.subrange(0, k));
        assert(is_digit(d[k]));
    } else {
        assert(d.subrange(0, k) =~= d);
    }
}

/// `prefix` followed by `tail`, as a new string.
fn message(prefix: &str, tail: &str) -> (r: String)
    ensures
        r@ == prefix@ + tail@,
{
    let mut m = String::from_str(prefix);
    m.append(tail);
    m
}

// ---------------------------------------------------------------
// Field segments
// ---------------------------------------------------------------

/// Parsing `pos:len` or `pos:slen` (signed): the segment, or the message
/// that names the part that failed.
pub open spec fn segment_parse(s: Seq<char>) -> Result<FieldSegment, Seq<char>> {
    if !(exists|i: int| first_at(s, ':', i)) {
        Err("bad segment: "@ + s)
    } else {
        let i = choose|i: int| first_at(s, ':', i);
        let pos_str = s.subrange(0, i);
        let rest = s.subrange(i + 1, s.len() as int);
        let signed = rest.len() > 0 && rest[0] == 's';
        let len_str = if signed { rest.drop_first() } else { rest };
        match parse_u32(pos_str) {
            None => Err("bad pos: "@ + pos_str),
            Some(pos) => match parse_u32(len_str) {
                None => Err("bad len: "@ + len_str),
                Some(len) => Ok(FieldSegment { pos, len, signed }),
            },
        }
    }
}

/// Parses a field segment `pos:len`, or `pos:slen` for a sign-extended one.
pub fn parse_field_segment(s: &str) -> (r: Result<FieldSegment, String>)
    ensures
        match r {
            Ok(seg) => segment_parse(s@) == Ok::<FieldSegment, Seq<char>>(seg),
            Err(e) => segment_parse(s@) == Err::<FieldSegment, Seq<char>>(e@),
        },
{
    let cs = char_vec(s);
    let n = cs.len();
    let i = find_char(&cs, ':');
    if i == n {
        assert forall|k: int| !first_at(s@, ':', k) by {
            if first_at(s@, ':', k) {
                assert(s@[k] != ':');
            }
        }
        return Err(message("bad segment: ", s));
    }
    assert(first_at(s@, ':', i as int));
    assert forall|k: int| #[trigger] first_at(s@, ':', k) implies k == i by {
        lemma_first_unique(s@, ':', i as int, k);
    }
    let signed = i + 1 < n && cs[i + 1] == 's';
    let len_from: usize = if signed { i + 2 } else { i + 1 };
    assert(s@.subrange(len_from as int, n as int) =~= (if signed {
        s@.subrange(i + 1, n as int).drop_first()
    } else {
        s@.subrange(i + 1, n as int)
    }));
    let pos = match parse_u32_at(&cs, 0, i) {
        Some(p) => p,
        None => {
            return Err(message("bad pos: ", s.substring_char(0, i)));
        },
    };
    let len = match parse_u32_at(&cs, len_from, n) {
        Some(l) => l,
        None => {
            return Err(message("bad len: ", s.substring_char(len_from, n)));
        },
    };
    Ok(FieldSegment { pos, len, signed })
}

// ---------------------------------------------------------------
// Names and numbers in generated code
// ---------------------------------------------------------------

/// ASCII bytes read as characters.
pub open spec fn ascii_chars(b: Seq<u8>) -> Seq<char> {
    b.map_values(|x: u8| x as char)
}

/// `0x` and the value in hexadecimal, zero-padded to four digits for a
/// 16-bit instruction set and to eight otherwise.
pub open spec fn hex_literal(val: u32, width: u32) -> Seq<char> {
    ascii_chars(seq![48u8, 120u8] + zpad(if width <= 16 { 4 } else { 8 }, hex(val as nat)))
}

/// Formats an instruction constant for the generated decoder.
pub fn format_hex(val: u32, width: u32) -> (r: String)
    ensures
        r@ == hex_literal(val, width),
{
    let mut b: Vec<u8> = Vec::new();
    let w: usize = if width <= 16 { 4 } else { 8 };
    put_hex0x_pad(&mut b, val as u64, w);
    let mut out = String::new();
    let mut k: usize = 0;
    while k < b.len()
        invariant
            k <= b@.len(),
            out@ == ascii_chars(b@.subrange(0, k as int)),
        decreases b@.len() - k,
    {
        push_char(&mut out, b[k] as char);
        assert(ascii_chars(b@.subrange(0, k + 1)) =~= ascii_chars(b@.subrange(0, k as int)).push(b@[k as int] as char));
        k = k + 1;
    }
    assert(b@.subrange(0, b@.len() as int) =~= b@);
    assert(b@ =~= seq![48u8, 120u8] + zpad(w as nat, hex(val as nat)));
    out
}

/// `c` in upper case when it is an ASCII lower-case letter.
pub open spec fn ascii_upper(c: char) -> char {
    if 'a' <= c <= 'z' {
        (((c as u32) - 32) as u8) as char
    } else {
        c
    }
}

/// Underscore-separated words joined in camel case, the first letter of
/// each word upper-cased; `upper` tells whether a word starts at `s[0]`.
pub open spec fn camel(s: Seq<char>, upper: bool) -> Seq<char>
    decreases s.len(),
{
    if s.len() == 0 {
        seq![]
    } else if s[0] == '_' {
        camel(s.drop_first(), true)
    } else if upper {
        seq![ascii_upper(s[0])] + camel(s.drop_first(), false)
    } else {
        seq![s[0]] + camel(s.drop_first(), false)
    }
}

/// `snake_case` to `SnakeCase`: underscores are dropped and the letter that
/// follows each one (and the first) is upper-cased.
pub fn to_camel(s: &str) -> (r: String)
    ensures
        r@ == camel(s@, true),
{
    let cs = char_vec(s);
    let n = cs.len();
    let mut result = String::new();
    let mut upper = true;
    let mut k: usize = 0;
    assert(cs@.subrange(0, n as int) =~= s@);
    assert(result@ + camel(s@, true) =~= camel(s@, true));
    while k < n
        invariant
            n == cs@.len(),
            cs@ == s@,
            k <= n,
            result@ + camel(cs@.subrange(k as int, n as int), upper) == camel(s@, true),
        decreases n - k,
    {
        let c = cs[k];
        assert(cs@.subrange(k as int, n as int).drop_first() =~= cs@.subrange(k + 1, n as int));
        if c == '_' {
            upper = true;
        } else if upper {
            let u = if 'a' <= c && c <= 'z' { (((c as u32) - 32) as u8) as char } else { c };
            push_char(&mut result, u);
            upper = false;
        } else {
            push_char(&mut result, c);
        }
        assert(result@ + camel(cs@.subrange(k + 1, n as int), upper) =~= camel(s@, true));
        k = k + 1;
    }
    assert(result@ + camel(cs@.subrange(n as int, n as int), upper) =~= result@);
    result
}

// ---------------------------------------------------------------
// Bit patterns
// ---------------------------------------------------------------

/// A pattern's fixed bits and mask, and the inline fields it names, each
/// once, with the position and length it was last given.
pub struct BitPatternResult {
    pub fixedbits: u32,
    pub fixedmask: u32,
    pub inline_fields: Vec<(String, u32, u32)>,
}

/// The inline fields as (name, position, length).
pub open spec fn fields_view(v: Seq<(String, u32, u32)>) -> Seq<(Seq<char>, u32, u32)> {
    v.map_values(|e: (String, u32, u32)| (e.0@, e.1, e.2))
}

/// `fs` with `name` given `(pos, len)`: its entry replaced where it has one,
/// else appended.
pub open spec fn insert_field(fs: Seq<(Seq<char>, u32, u32)>, name: Seq<char>, pos: u32, len: u32) -> Seq<(Seq<char>, u32, u32)>
    decreases fs.len(),
{
    if fs.len() == 0 {
        seq![(name, pos, len)]
    } else if fs[0].0 == name {
        seq![(name, pos, len)] + fs.drop_first()
    } else {
        seq![fs[0]] + insert_field(fs.drop_first(), name, pos, len)
    }
}

proof fn lemma_insert_field(fs: Seq<(Seq<char>, u32, u32)>, name: Seq<char>, pos: u32, len: u32, i: int)
    requires
        0 <= i <= fs.len(),
        forall|j: int| 0 <= j < i ==> (#[trigger] fs[j]).0 != name,
        i < fs.len() ==> fs[i].0 == name,
    ensures
        insert_field(fs, name, pos, len) == (if i < fs.len() {
            fs.update(i, (name, pos, len))
        } else {
            fs.push((name, pos, len))
        }),
    decreases fs.len(),
{
    if fs.len() == 0 {
        assert(seq![(name, pos, len)] =~= fs.push((name, pos, len)));
    } else if i == 0 {
        assert(seq![(name, pos, len)] + fs.drop_first() =~= fs.update(0, (name, pos, len)));
    } else {
        assert(fs[0].0 != name);
        let t = fs.drop_first();
        assert forall|j: int| 0 <= j < i - 1 implies (#[trigger] t[j]).0 != name by {
            assert(t[j] == fs[j + 1]);
        }
        lemma_insert_field(t, name, pos, len, i - 1);
        if i < fs.len() {
            assert(seq![fs[0]] + t.update(i - 1, (name, pos, len)) =~= fs.update(i, (name, pos, len)));
        } else {
            assert(seq![fs[0]] + t.push((name, pos, len)) =~= fs.push((name, pos, len)));
        }
    }
}

fn insert_inline(fields: &mut Vec<(String, u32, u32)>, name: String, pos: u32, len: u32)
    ensures
        fields_view(final(fields)@) == insert_field(fields_view(old(fields)@), name@, pos, len),
{
    let ghost fv = fields_view(fields@);
    let mut i: usize = 0;
    while i < fields.len()
        invariant
            i <= fields@.len(),
            fields@ == old(fields)@,
            fv == fields_view(fields@),
            forall|j: int| 0 <= j < i ==> (#[trigger] fv[j]).0 != name@,
        decreases fields@.len() - i,
    {
        if fields[i].0 == name {
            proof {
                lemma_insert_field(fv, name@, pos, len, i as int);
            }
            fields.set(i, (name, pos, len));
            assert(fields_view(fields@) =~= fv.update(i as int, (name@, pos, len)));
            return;
        }
        i = i + 1;
    }
    proof {
        lemma_insert_field(fv, name@, pos, len, i as int);
    }
    let ghost nv = name@;
    fields.push((name, pos, len));
    assert(fields_view(fields@) =~= fv.push((nv, pos, len)));
}

/// What a bit character does to the fixed bits and mask at bit `q`.
pub open spec fn bit_set(c: char, bits: u32, mask: u32, q: u32) -> (u32, u32) {
    if c == '1' {
        (bits | (1u32 << q), mask | (1u32 << q))
    } else if c == '0' {
        (bits, mask | (1u32 << q))
    } else {
        (bits, mask)
    }
}

/// What one character of a bit pattern means for bit `q` of the
/// instruction: `1` fixes the bit to one (it joins the fixed bits and the
/// mask), `0` fixes it to zero (it joins the mask and not the fixed bits),
/// and any other character (`.`, `-`) leaves the bit free; no other bit
/// changes.
pub proof fn law_pattern_char(c: char, bits: u32, mask: u32, q: u32)
    requires
        q < 32,
    ensures
        c == '1' ==> (bit_set(c, bits, mask, q).0 >> q) & 1 == 1 && (bit_set(c, bits, mask, q).1 >> q) & 1 == 1,
        c == '0' ==> bit_set(c, bits, mask, q).0 == bits && (bit_set(c, bits, mask, q).1 >> q) & 1 == 1,
        c != '0' && c != '1' ==> bit_set(c, bits, mask, q) == (bits, mask),
        forall|r: u32|
            r < 32 && r != q ==> (#[trigger] (bit_set(c, bits, mask, q).0 >> r) & 1) == (bits >> r) & 1 && (bit_set(
                c,
                bits,
                mask,
                q,
            ).1 >> r) & 1 == (mask >> r) & 1,
{
    crate::backend::fold::lemma_shift_bits();
    assert((bits | (1u32 << q)) >> q & 1 == 1);
    assert((mask | (1u32 << q)) >> q & 1 == 1);
    assert forall|r: u32| r < 32 && r != q implies (#[trigger] (bit_set(c, bits, mask, q).0 >> r) & 1) == (bits >> r) & 1
        && (bit_set(c, bits, mask, q).1 >> r) & 1 == (mask >> r) & 1 by {
        assert(((bits | (1u32 << q)) >> r) & 1u32 == (bits >> r) & 1u32);
        assert(((mask | (1u32 << q)) >> r) & 1u32 == (mask >> r) & 1u32);
    }
}

/// Reading the bit characters `t` from bit `p` downwards: the bits, mask and
/// next position; `Err` when the pattern runs past bit 0. `None` where a
/// position is 32 or more, which the shift cannot take.
pub open spec fn scan_bits(t: Seq<char>, bits: u32, mask: u32, p: int) -> Option<Result<(u32, u32, int), ()>>
    decreases t.len(),
{
    if t.len() == 0 {
        Some(Ok((bits, mask, p)))
    } else if p < 0 {
        Some(Err(()))
    } else if p >= 32 {
        None
    } else {
        scan_bits(t.drop_first(), bit_set(t[0], bits, mask, p as u32).0, bit_set(t[0], bits, mask, p as u32).1, p - 1)
    }
}

/// The message for a pattern longer than the instruction.
pub open spec fn too_wide_msg(width: u32) -> Seq<char> {
    "bit pattern exceeds "@ + ascii_chars(crate::text::dec(width as nat)) + " bits"@
}

/// The message for an inline field whose length does not fit in 32 bits.
pub open spec fn inline_len_msg() -> Seq<char> {
    "bad inline field len: number too large to fit in target type"@
}

/// Reading pattern tokens from state `(bits, mask, fields, position)`:
/// bit tokens set bits from the top down, inline fields take the bits
/// below, and the first token of neither kind ends the pattern. `None`
/// where the position leaves the 32-bit signed range, or a bit lands at 32
/// or above.
pub open spec fn scan_tokens(
    ts: Seq<Seq<char>>,
    width: u32,
    st: (u32, u32, Seq<(Seq<char>, u32, u32)>, int),
) -> Option<Result<(u32, u32, Seq<(Seq<char>, u32, u32)>, int), Seq<char>>>
    decreases ts.len(),
{
    if ts.len() == 0 {
        Some(Ok(st))
    } else if spec_bit_token(ts[0]) {
        match scan_bits(ts[0], st.0, st.1, st.3) {
            None => None,
            Some(Err(_)) => Some(Err(too_wide_msg(width))),
            Some(Ok(b)) => scan_tokens(ts.drop_first(), width, (b.0, b.1, st.2, b.2)),
        }
    } else if spec_inline_field(ts[0]) {
        let t = ts[0];
        let i = choose|i: int| first_at(t, ':', i);
        match parse_u32(t.subrange(i + 1, t.len() as int)) {
            None => Some(Err(inline_len_msg())),
            Some(len) => {
                let d = st.3 - (len as i32);
                if d < i32::MIN || d + 1 > i32::MAX {
                    None
                } else {
                    scan_tokens(ts.drop_first(), width, (st.0, st.1, insert_field(st.2, t.subrange(0, i), (d + 1) as u32, len), d))
                }
            }
        }
    } else {
        Some(Ok(st))
    }
}

/// The pattern read from `ts` for a `width`-bit instruction.
pub open spec fn bit_scan(ts: Seq<Seq<char>>, width: u32) -> Option<Result<(u32, u32, Seq<(Seq<char>, u32, u32)>, int), Seq<char>>> {
    scan_tokens(ts, width, (0, 0, seq![], width - 1))
}

fn scan_bit_chars(t: &str, bits: u32, mask: u32, p: i32) -> (r: Result<(u32, u32, i32), ()>)
    requires
        scan_bits(t@, bits, mask, p as int) is Some,
    ensures
        match scan_bits(t@, bits, mask, p as int)->0 {
            Ok(x) => r == Ok::<(u32, u32, i32), ()>((x.0, x.1, x.2 as i32)) && x.2 == x.2 as i32,
            Err(_) => r is Err,
        },
{
    let cs = char_vec(t);
    let n = cs.len();
    let mut b = bits;
    let mut m = mask;
    let mut q = p;
    let mut j: usize = 0;
    assert(cs@.subrange(0, n as int) =~= t@);
    while j < n
        invariant
            n == cs@.len(),
            j <= n,
            p - j == q,
            scan_bits(t@, bits, mask, p as int) == scan_bits(cs@.subrange(j as int, n as int), b, m, q as int),
            scan_bits(t@, bits, mask, p as int) is Some,
        decreases n - j,
    {
        assert(cs@.subrange(j as int, n as int).drop_first() =~= cs@.subrange(j + 1, n as int));
        if q < 0 {
            return Err(());
        }
        let c = cs[j];
        let sh: u32 = q as u32;
        if c == '1' {
            b = b | (1u32 << sh);
            m = m | (1u32 << sh);
        } else if c == '0' {
            m = m | (1u32 << sh);
        }
        q = q - 1;
        j = j + 1;
    }
    Ok((b, m, q))
}

/// Reads the leading bit tokens and inline fields of a pattern for a
/// `width`-bit instruction, most significant bit first.
pub fn parse_bit_tokens(tokens: &[&str], width: u32) -> (r: Result<BitPatternResult, String>)
    requires
        width <= 32,
        bit_scan(views(tokens@), width) is Some,
    ensures
        match bit_scan(views(tokens@), width)->0 {
            Ok(st) => r matches Ok(b) && b.fixedbits == st.0 && b.fixedmask == st.1 && fields_view(b.inline_fields@) == st.2,
            Err(msg) => r matches Err(e) && e@ == msg,
        },
{
    let ghost ts = views(tokens@);
    let n = tokens.len();
    let mut fixedbits: u32 = 0;
    let mut fixedmask: u32 = 0;
    let mut inline_fields: Vec<(String, u32, u32)> = Vec::new();
    let mut bit_pos: i32 = width as i32 - 1;
    let mut k: usize = 0;
    assert(ts.subrange(0, n as int) =~= ts);
    assert(fields_view(inline_fields@) =~= seq![]);
    while k < n
        invariant
            n == tokens@.len(),
            ts == views(tokens@),
            k <= n,
            bit_scan(ts, width) is Some,
            bit_scan(ts, width) == scan_tokens(ts.subrange(k as int, n as int), width, (fixedbits, fixedmask, fields_view(inline_fields@), bit_pos as int)),
        decreases n - k,
    {
        let ghost rest = ts.subrange(k as int, n as int);
        assert(rest.drop_first() =~= ts.subrange(k + 1, n as int));
        assert(rest[0] == tokens@[k as int]@);
        let tok = tokens[k];
        if crate::decodetree::is_bit_token(tok) {
            match scan_bit_chars(tok, fixedbits, fixedmask, bit_pos) {
                Ok((b, m, q)) => {
                    fixedbits = b;
                    fixedmask = m;
                    bit_pos = q;
                },
                Err(_) => {
                    let mut e = String::from_str("bit pattern exceeds ");
                    let mut d: Vec<u8> = Vec::new();
                    crate::text::put_dec(&mut d, width as u64);
                    let mut j: usize = 0;
                    while j < d.len()
                        invariant
                            j <= d@.len(),
                            e@ == "bit pattern exceeds "@ + ascii_chars(d@.subrange(0, j as int)),
                        decreases d@.len() - j,
                    {
                        push_char(&mut e, d[j] as char);
                        assert(ascii_chars(d@.subrange(0, j + 1)) =~= ascii_chars(d@.subrange(0, j as int)).push(d@[j as int] as char));
                        j = j + 1;
                    }
                    assert(d@.subrange(0, d@.len() as int) =~= d@);
                    e.append(" bits");
                    return Err(e);
                },
            }
        } else if is_inline_field(tok) {
            let cs = char_vec(tok);
            let tn = cs.len();
            let i = find_char(&cs, ':');
            proof {
                let w = choose|w: int| first_at(tok@, ':', w);
                assert(first_at(tok@, ':', w));
                if i < w {
                    assert(tok@[i as int] != ':');
                }
                if w < i {
                    assert(tok@[w] != ':');
                }
                assert(w == i);
            }
            let len = match parse_u32_at(&cs, i + 1, tn) {
                Some(l) => l,
                None => {
                    return Err(String::from_str("bad inline field len: number too large to fit in target type"));
                },
            };
            let d: i64 = bit_pos as i64 - (len as i32) as i64;
            let pos = (d + 1) as u32;
            let name = tok.substring_char(0, i).to_owned();
            insert_inline(&mut inline_fields, name, pos, len);
            bit_pos = d as i32;
        } else {
            return Ok(BitPatternResult { fixedbits, fixedmask, inline_fields });
        }
        k = k + 1;
    }
    Ok(BitPatternResult { fixedbits, fixedmask, inline_fields })
}

// ---------------------------------------------------------------
// Lines
// ---------------------------------------------------------------

/// Unicode `White_Space`, the property `char::is_whitespace` tests.
pub open spec fn ws(c: char) -> bool {
    ('\u{9}' <= c <= '\u{d}') || c == ' ' || c == '\u{85}' || c == '\u{a0}' || c == '\u{1680}' || ('\u{2000}'
        <= c <= '\u{200a}') || c == '\u{2028}' || c == '\u{2029}' || c == '\u{202f}' || c == '\u{205f}' || c
        == '\u{3000}'
}

pub fn is_ws(c: char) -> (r: bool)
    ensures
        r == ws(c),
{
    ('\u{9}' <= c && c <= '\u{d}') || c == ' ' || c == '\u{85}' || c == '\u{a0}' || c == '\u{1680}' || ('\u{2000}'
        <= c && c <= '\u{200a}') || c == '\u{2028}' || c == '\u{2029}' || c == '\u{202f}' || c == '\u{205f}' || c
        == '\u{3000}'
}

/// `s` without its leading whitespace.
pub open spec fn trim_start(s: Seq<char>) -> Seq<char>
    decreases s.len(),
{
    if s.len() > 0 && ws(s[0]) {
        trim_start(s.drop_first())
    } else {
        s
    }
}

/// `s` without its trailing whitespace.
pub open spec fn trim_end(s: Seq<char>) -> Seq<char>
    decreases s.len(),
{
    if s.len() > 0 && ws(s.last()) {
        trim_end(s.drop_last())
    } else {
        s
    }
}

/// `str::trim`: `s` without leading and trailing whitespace.
pub open spec fn trim(s: Seq<char>) -> Seq<char> {
    trim_end(trim_start(s))
}

/// `s` without its trailing spaces.
pub open spec fn strip_spaces(s: Seq<char>) -> Seq<char>
    decreases s.len(),
{
    if s.len() > 0 && s.last() == ' ' {
        strip_spaces(s.drop_last())
    } else {
        s
    }
}

/// `str::lines`: the pieces between `\n`s, each without a `\r` that stood
/// just before its `\n`; a final `\n` ends the last line rather than
/// starting another.
pub open spec fn lines(s: Seq<char>) -> Seq<Seq<char>>
    decreases s.len(),
{
    if s.len() == 0 {
        seq![]
    } else if !(exists|i: int| first_at(s, '\n', i)) {
        seq![s]
    } else {
        let i = choose|i: int| first_at(s, '\n', i);
        let line = s.subrange(0, i);
        let line = if line.len() > 0 && line.last() == '\r' { line.drop_last() } else { line };
        seq![line] + lines(s.subrange(i + 1, s.len() as int))
    }
}

/// One line of `merge_continuations`: appended after a space, trimmed,
/// when the previous one was continued, else on a line of its own; a
/// final `\` is dropped with the spaces before it and continues the line.
pub open spec fn merge_step(st: (Seq<char>, bool), line: Seq<char>) -> (Seq<char>, bool) {
    let out = if st.1 {
        st.0.push(' ') + trim(line)
    } else if st.0.len() > 0 {
        st.0.push('\n') + line
    } else {
        line
    };
    if out.len() > 0 && out.last() == '\\' {
        (strip_spaces(out.drop_last()), true)
    } else {
        (out, false)
    }
}

/// The lines `ls` merged onto state `st`.
pub open spec fn merge_from(ls: Seq<Seq<char>>, st: (Seq<char>, bool)) -> (Seq<char>, bool)
    decreases ls.len(),
{
    if ls.len() == 0 {
        st
    } else {
        merge_from(ls.drop_first(), merge_step(st, ls[0]))
    }
}

fn push_range(out: &mut Vec<char>, cs: &Vec<char>, a: usize, b: usize)
    requires
        a <= b <= cs@.len(),
    ensures
        final(out)@ == old(out)@ + cs@.subrange(a as int, b as int),
{
    let mut j: usize = a;
    while j < b
        invariant
            a <= j <= b <= cs@.len(),
            out@ == old(out)@ + cs@.subrange(a as int, j as int),
        decreases b - j,
    {
        out.push(cs[j]);
        assert(out@ =~= old(out)@ + cs@.subrange(a as int, j + 1));
        j = j + 1;
    }
}

/// The bounds of `cs[a..b]` with the whitespace at both ends removed.
fn trim_bounds(cs: &Vec<char>, a: usize, b: usize) -> (r: (usize, usize))
    requires
        a <= b <= cs@.len(),
    ensures
        a <= r.0 <= r.1 <= b,
        cs@.subrange(r.0 as int, r.1 as int) == trim(cs@.subrange(a as int, b as int)),
{
    let mut x = a;
    while x < b && is_ws(cs[x])
        invariant
            a <= x <= b <= cs@.len(),
            trim_start(cs@.subrange(a as int, b as int)) == trim_start(cs@.subrange(x as int, b as int)),
        decreases b - x,
    {
        assert(cs@.subrange(x as int, b as int).drop_first() =~= cs@.subrange(x + 1, b as int));
        x = x + 1;
    }
    assert(trim_start(cs@.subrange(x as int, b as int)) == cs@.subrange(x as int, b as int));
    let mut y = b;
    while y > x && is_ws(cs[y - 1])
        invariant
            a <= x <= y <= b <= cs@.len(),
            trim(cs@.subrange(a as int, b as int)) == trim_end(cs@.subrange(x as int, y as int)),
        decreases y - x,
    {
        assert(cs@.subrange(x as int, y as int).drop_last() =~= cs@.subrange(x as int, y - 1));
        y = y - 1;
    }
    (x, y)
}

/// Drops a final `\` and the spaces before it, reporting whether it was there.
fn finish_line(out: &mut Vec<char>) -> (cont: bool)
    ensures
        (final(out)@, cont) == (if old(out)@.len() > 0 && old(out)@.last() == '\\' {
            (strip_spaces(old(out)@.drop_last()), true)
        } else {
            (old(out)@, false)
        }),
{
    let n = out.len();
    if n > 0 && out[n - 1] == '\\' {
        out.pop();
        while out.len() > 0 && out[out.len() - 1] == ' '
            invariant
                strip_spaces(old(out)@.drop_last()) == strip_spaces(out@),
            decreases out@.len(),
        {
            out.pop();
        }
        true
    } else {
        false
    }
}

fn string_of(v: &Vec<char>) -> (r: String)
    ensures
        r@ == v@,
{
    let mut out = String::new();
    let mut k: usize = 0;
    while k < v.len()
        invariant
            k <= v@.len(),
            out@ == v@.subrange(0, k as int),
        decreases v@.len() - k,
    {
        push_char(&mut out, v[k]);
        assert(out@ =~= v@.subrange(0, k + 1));
        k = k + 1;
    }
    assert(v@.subrange(0, v@.len() as int) =~= v@);
    out
}

/// First `c` at or after `from` in `cs`, or `cs.len()`.
fn find_from(cs: &Vec<char>, c: char, from: usize) -> (i: usize)
    requires
        from <= cs@.len(),
    ensures
        from <= i <= cs@.len(),
        forall|j: int| from <= j < i ==> cs@[j] != c,
        i < cs@.len() ==> cs@[i as int] == c,
{
    let mut i: usize = from;
    while i < cs.len()
        invariant
            from <= i <= cs@.len(),
            forall|j: int| from <= j < i ==> cs@[j] != c,
        decreases cs@.len() - i,
    {
        if cs[i] == c {
            return i;
        }
        i = i + 1;
    }
    i
}

/// Joins each line that ends in `\` with the next: the `\` and the spaces
/// before it are dropped, and the next line follows, trimmed, after one space.
pub fn merge_continuations(input: &str) -> (r: String)
    ensures
        r@ == merge_from(lines(input@), (seq![], false)).0,
{
    let cs = char_vec(input);
    let n = cs.len();
    let mut out: Vec<char> = Vec::new();
    let mut cont = false;
    let mut pos: usize = 0;
    assert(cs@.subrange(0, n as int) =~= input@);
    while pos < n
        invariant
            n == cs@.len(),
            pos <= n,
            merge_from(lines(input@), (seq![], false)) == merge_from(lines(cs@.subrange(pos as int, n as int)), (out@, cont)),
        decreases n - pos,
    {
        let ghost s = cs@.subrange(pos as int, n as int);
        let j = find_from(&cs, '\n', pos);
        let mut e = j;
        if j < n && e > pos && cs[e - 1] == '\r' {
            e = e - 1;
        }
        let next: usize = if j < n { j + 1 } else { n };
        proof {
            if j < n {
                assert(first_at(s, '\n', j - pos));
                assert forall|k: int| #[trigger] first_at(s, '\n', k) implies k == j - pos by {
                    lemma_first_unique(s, '\n', j - pos, k);
                }
                assert(s.subrange(j - pos + 1, s.len() as int) =~= cs@.subrange(next as int, n as int));
                let line = s.subrange(0, j - pos);
                assert(cs@.subrange(pos as int, e as int) =~= (if line.len() > 0 && line.last() == '\r' {
                    line.drop_last()
                } else {
                    line
                }));
            } else {
                assert forall|k: int| !first_at(s, '\n', k) by {
                    if first_at(s, '\n', k) {
                        assert(cs@[pos + k] != '\n');
                    }
                }
                assert(cs@.subrange(pos as int, e as int) =~= s);
                assert(cs@.subrange(next as int, n as int) =~= Seq::<char>::empty());
            }
            assert(lines(s) =~= seq![cs@.subrange(pos as int, e as int)] + lines(cs@.subrange(next as int, n as int)));
            assert(lines(s).drop_first() =~= lines(cs@.subrange(next as int, n as int)));
        }
        let ghost st = (out@, cont);
        if cont {
            out.push(' ');
            let (x, y) = trim_bounds(&cs, pos, e);
            push_range(&mut out, &cs, x, y);
        } else {
            if out.len() > 0 {
                out.push('\n');
            }
            push_range(&mut out, &cs, pos, e);
        }
        assert(out@ =~= (if st.1 {
            st.0.push(' ') + trim(cs@.subrange(pos as int, e as int))
        } else if st.0.len() > 0 {
            st.0.push('\n') + cs@.subrange(pos as int, e as int)
        } else {
            cs@.subrange(pos as int, e as int)
        }));
        cont = finish_line(&mut out);
        pos = next;
    }
    assert(lines(cs@.subrange(n as int, n as int)) =~= Seq::<Seq<char>>::empty());
    string_of(&out)
}

// ---------------------------------------------------------------
// Words
// ---------------------------------------------------------------

/// The end of the run of non-whitespace characters of `s` that starts at `i`.
pub open spec fn run_end(s: Seq<char>, i: int) -> int
    decreases s.len() - i,
{
    if i < 0 || i >= s.len() || ws(s[i]) {
        i
    } else {
        run_end(s, i + 1)
    }
}

pub proof fn lemma_run_end(s: Seq<char>, i: int)
    requires
        0 <= i <= s.len(),
    ensures
        i <= run_end(s, i) <= s.len(),
        forall|j: int| i <= j < run_end(s, i) ==> !ws(#[trigger] s[j]),
        run_end(s, i) < s.len() ==> ws(s[run_end(s, i)]),
    decreases s.len() - i,
{
    if i < s.len() && !ws(s[i]) {
        lemma_run_end(s, i + 1);
    }
}

/// `str::split_whitespace` from position `i`: the maximal runs of
/// non-whitespace characters.
pub open spec fn words_from(s: Seq<char>, i: int) -> Seq<Seq<char>>
    decreases s.len() - i,
{
    if i < 0 || i >= s.len() {
        seq![]
    } else if ws(s[i]) {
        words_from(s, i + 1)
    } else {
        proof {
            lemma_run_end(s, i + 1);
        }
        seq![s.subrange(i, run_end(s, i))] + words_from(s, run_end(s, i))
    }
}

/// The words of `s`, as `str::split_whitespace` gives them.
pub open spec fn words(s: Seq<char>) -> Seq<Seq<char>> {
    words_from(s, 0)
}

/// The character ranges of the words of `cs`.
fn word_ranges(cs: &Vec<char>) -> (r: Vec<(usize, usize)>)
    ensures
        r@.len() == words(cs@).len(),
        forall|k: int|
            0 <= k < r@.len() ==> (#[trigger] r@[k]).0 < r@[k].1 <= cs@.len() && cs@.subrange(r@[k].0 as int, r@[k].1 as int)
                == words(cs@)[k],
{
    let n = cs.len();
    let mut r: Vec<(usize, usize)> = Vec::new();
    let mut i: usize = 0;
    let ghost done: Seq<Seq<char>> = seq![];
    while i < n
        invariant
            n == cs@.len(),
            i <= n,
            done + words_from(cs@, i as int) == words(cs@),
            r@.len() == done.len(),
            forall|k: int|
                0 <= k < r@.len() ==> (#[trigger] r@[k]).0 < r@[k].1 <= n && cs@.subrange(r@[k].0 as int, r@[k].1 as int)
                    == done[k],
        decreases n - i,
    {
        if is_ws(cs[i]) {
            i = i + 1;
        } else {
            let mut j = i + 1;
            proof {
                lemma_run_end(cs@, i + 1);
            }
            while j < n && !is_ws(cs[j])
                invariant
                    n == cs@.len(),
                    i < j <= n,
                    run_end(cs@, i as int) == run_end(cs@, j as int),
                decreases n - j,
            {
                j = j + 1;
            }
            let ghost w = cs@.subrange(i as int, j as int);
            assert(words_from(cs@, i as int) == seq![w] + words_from(cs@, j as int));
            r.push((i, j));
            proof {
                assert((done + seq![w]) + words_from(cs@, j as int) =~= done + (seq![w] + words_from(cs@, j as int)));
                done = done.push(w);
            }
            i = j;
        }
    }
    assert(words_from(cs@, n as int) =~= Seq::<Seq<char>>::empty());
    assert(done =~= words(cs@));
    r
}

// ---------------------------------------------------------------
// Field and argument-set lines
// ---------------------------------------------------------------

/// Whether `cs[a..b]` starts with the characters `p`.
fn has_prefix(cs: &Vec<char>, a: usize, b: usize, p: &Vec<char>) -> (r: bool)
    requires
        a <= b <= cs@.len(),
    ensures
        r == (b - a >= p@.len() && cs@.subrange(a as int, a + p@.len()) == p@),
{
    if b - a < p.len() {
        return false;
    }
    let mut k: usize = 0;
    while k < p.len()
        invariant
            a + p@.len() <= b <= cs@.len(),
            k <= p@.len(),
            forall|j: int| 0 <= j < k ==> cs@[a + j] == p@[j],
        decreases p@.len() - k,
    {
        if cs[a + k] != p[k] {
            assert(cs@.subrange(a as int, a + p@.len())[k as int] != p@[k as int]);
            return false;
        }
        k = k + 1;
    }
    assert(cs@.subrange(a as int, a + p@.len()) =~= p@);
    true
}

/// The prefix of a transform function on a field line.
pub open spec fn func_prefix() -> Seq<char> {
    "!function="@
}

/// The string's characters, if there is one.
pub open spec fn opt_view(o: Option<String>) -> Option<Seq<char>> {
    match o {
        Some(s) => Some(s@),
        None => None,
    }
}

/// Reading the tokens after a field's name, left to right: each
/// `!function=f` names the transform (the last one counts), every other
/// token is a segment; the first segment that does not parse gives the error.
pub open spec fn field_parts(toks: Seq<Seq<char>>) -> Result<(Seq<FieldSegment>, Option<Seq<char>>), Seq<char>>
    decreases toks.len(),
{
    if toks.len() == 0 {
        Ok((seq![], None))
    } else {
        match field_parts(toks.drop_last()) {
            Err(e) => Err(e),
            Ok(p) => {
                let t = toks.last();
                if t.len() >= func_prefix().len() && t.subrange(0, func_prefix().len() as int) == func_prefix() {
                    Ok((p.0, Some(t.subrange(func_prefix().len() as int, t.len() as int))))
                } else {
                    match segment_parse(t) {
                        Ok(seg) => Ok((p.0.push(seg), p.1)),
                        Err(e) => Err(e),
                    }
                }
            },
        }
    }
}

/// Parses a field line `%name seg... [!function=f]`: the name is the first
/// word without its `%`.
pub fn parse_field(line: &str) -> (r: Result<Field, String>)
    requires
        words(line@).len() > 0,
        words(line@)[0][0] < '\u{80}',
    ensures
        match field_parts(words(line@).drop_first()) {
            Ok(p) => r matches Ok(f) && f.name@ == words(line@)[0].drop_first() && f.segments@ == p.0 && opt_view(f.func) == p.1,
            Err(e) => r matches Err(m) && m@ == e,
        },
{
    let cs = char_vec(line);
    let ranges = word_ranges(&cs);
    let ghost ws = words(line@);
    let ghost toks = ws.drop_first();
    let (a0, b0) = ranges[0];
    let name = line.substring_char(a0 + 1, b0).to_owned();
    assert(name@ =~= ws[0].drop_first());
    let prefix = char_vec("!function=");
    let mut segments: Vec<FieldSegment> = Vec::new();
    let mut func: Option<String> = None;
    let mut k: usize = 1;
    assert(toks.subrange(0, 0) =~= Seq::<Seq<char>>::empty());
    while k < ranges.len()
        invariant
            cs@ == line@,
            ws == words(cs@),
            toks == ws.drop_first(),
            ranges@.len() == ws.len(),
            forall|j: int|
                0 <= j < ranges@.len() ==> (#[trigger] ranges@[j]).0 < ranges@[j].1 <= cs@.len() && cs@.subrange(
                    ranges@[j].0 as int,
                    ranges@[j].1 as int,
                ) == ws[j],
            prefix@ == func_prefix(),
            1 <= k <= ranges@.len(),
            field_parts(toks.subrange(0, k - 1)) == Ok::<(Seq<FieldSegment>, Option<Seq<char>>), Seq<char>>(
                (segments@, opt_view(func)),
            ),
        decreases ranges@.len() - k,
    {
        let (a, b) = ranges[k];
        let ghost t = toks[k - 1];
        assert(t == ws[k as int]);
        assert(toks.subrange(0, k as int).drop_last() =~= toks.subrange(0, k - 1));
        assert(toks.subrange(0, k as int).last() == t);
        if has_prefix(&cs, a, b, &prefix) {
            let f = line.substring_char(a + prefix.len(), b).to_owned();
            assert(f@ =~= t.subrange(func_prefix().len() as int, t.len() as int));
            assert(t.subrange(0, func_prefix().len() as int) =~= cs@.subrange(a as int, a + prefix@.len()));
            func = Some(f);
        } else {
            proof {
                if t.len() >= func_prefix().len() {
                    assert(t.subrange(0, func_prefix().len() as int) =~= cs@.subrange(a as int, a + prefix@.len()));
                }
            }
            let tok = line.substring_char(a, b);
            match parse_field_segment(tok) {
                Ok(seg) => {
                    segments.push(seg);
                },
                Err(e) => {
                    proof {
                        assert(tok@ == t);
                        lemma_field_parts_err(toks, k as int);
                    }
                    return Err(e);
                },
            }
        }
        k = k + 1;
    }
    assert(toks.subrange(0, toks.len() as int) =~= toks);
    Ok(Field { name, segments, func })
}

/// Once a prefix of the tokens fails, so do all of them, with its error.
proof fn lemma_field_parts_err(toks: Seq<Seq<char>>, k: int)
    requires
        0 <= k <= toks.len(),
        field_parts(toks.subrange(0, k)) is Err,
    ensures
        field_parts(toks) == field_parts(toks.subrange(0, k)),
    decreases toks.len() - k,
{
    if k < toks.len() {
        let d = toks.drop_last();
        assert(d.subrange(0, k) =~= toks.subrange(0, k));
        lemma_field_parts_err(d, k);
    } else {
        assert(toks.subrange(0, k) =~= toks);
    }
}

/// The token that marks an argument set as defined elsewhere.
pub open spec fn extern_mark() -> Seq<char> {
    "!extern"@
}

/// Parses an argument-set line `&name field... [!extern]`: the name is the
/// first word without its `&`, and the fields are the words between it and
/// a final `!extern`.
pub fn parse_argset(line: &str) -> (r: Result<ArgSet, String>)
    requires
        words(line@).len() > 0,
        words(line@)[0][0] < '\u{80}',
        !(words(line@).len() == 1 && words(line@)[0] == extern_mark()),
    ensures
        r matches Ok(a) && {
            let ws = words(line@);
            let ext = ws.last() == extern_mark();
            let end = if ext { ws.len() - 1 } else { ws.len() as int };
            &&& a.name@ == ws[0].drop_first()
            &&& a.is_extern == ext
            &&& a.fields@.map_values(|f: String| f@) == ws.subrange(1, end)
        },
{
    let cs = char_vec(line);
    let ranges = word_ranges(&cs);
    let ghost ws = words(line@);
    let n = ranges.len();
    let (a0, b0) = ranges[0];
    let name = line.substring_char(a0 + 1, b0).to_owned();
    assert(name@ =~= ws[0].drop_first());
    let mark = char_vec("!extern");
    let (al, bl) = ranges[n - 1];
    let is_extern = bl - al == mark.len() && has_prefix(&cs, al, bl, &mark);
    proof {
        if bl - al == mark@.len() {
            assert(cs@.subrange(al as int, al + mark@.len()) =~= ws[n - 1]);
        } else {
            assert(ws[n - 1].len() != extern_mark().len());
        }
    }
    let end = if is_extern { n - 1 } else { n };
    let mut fields: Vec<String> = Vec::new();
    let mut k: usize = 1;
    while k < end
        invariant
            cs@ == line@,
            ws == words(cs@),
            ranges@.len() == ws.len() == n,
            end <= n,
            forall|j: int|
                0 <= j < ranges@.len() ==> (#[trigger] ranges@[j]).0 < ranges@[j].1 <= cs@.len() && cs@.subrange(
                    ranges@[j].0 as int,
                    ranges@[j].1 as int,
                ) == ws[j],
            1 <= k <= end || (k == 1 && end == 0),
            fields@.map_values(|f: String| f@) == ws.subrange(1, k as int),
        decreases end - k,
    {
        let (a, b) = ranges[k];
        let f = line.substring_char(a, b).to_owned();
        let ghost before = fields@;
        fields.push(f);
        assert(fields@.map_values(|f: String| f@) =~= before.map_values(|f: String| f@).push(ws[k as int]));
        assert(ws.subrange(1, k + 1) =~= ws.subrange(1, k as int).push(ws[k as int]));
        k = k + 1;
    }
    Ok(ArgSet { name, fields, is_extern })
}

} // verus!
