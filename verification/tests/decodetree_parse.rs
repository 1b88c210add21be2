use tcg::decodetree::{
    count_bit_tokens, format_hex, is_inline_field, merge_continuations, parse_argset, parse_bit_tokens, parse_field,
    parse_field_segment, to_camel,
};

#[test]
fn inline_field_forms() {
    assert!(is_inline_field("rd:5"));
    assert!(is_inline_field("a_b1:12"));
    assert!(!is_inline_field("rd:"));
    assert!(!is_inline_field(":5"));
    assert!(!is_inline_field("r d:5"));
    assert!(!is_inline_field("imm:1x"));
    assert!(!is_inline_field("x:5:6"));
    assert!(!is_inline_field("0101"));
}

#[test]
fn counts_leading_pattern_tokens() {
    assert_eq!(count_bit_tokens(&["0000000", "rs2:5", "....", "&r", "111"]), 3);
    assert_eq!(count_bit_tokens(&["@fmt", "111"]), 0);
    assert_eq!(count_bit_tokens(&[]), 0);
}

#[test]
fn bit_tokens_and_inline_fields() {
    let r = parse_bit_tokens(&["10", "rd:3", "1"], 8).ok().unwrap();
    assert_eq!(r.fixedbits, 0x84);
    assert_eq!(r.fixedmask, 0xc4);
    assert_eq!(r.inline_fields, vec![("rd".to_string(), 3, 3)]);
}

#[test]
fn bit_tokens_stop_at_other_tokens() {
    let r = parse_bit_tokens(&["1", "&args", "0"], 4).ok().unwrap();
    assert_eq!((r.fixedbits, r.fixedmask), (0x8, 0x8));
    assert!(r.inline_fields.is_empty());
}

#[test]
fn inline_field_given_twice_keeps_last() {
    let r = parse_bit_tokens(&["a:2", "a:3"], 8).ok().unwrap();
    assert_eq!(r.inline_fields, vec![("a".to_string(), 3, 3)]);
}

#[test]
fn bit_pattern_too_wide() {
    let e = parse_bit_tokens(&["111"], 2).err().unwrap();
    assert_eq!(e, "bit pattern exceeds 2 bits");
}

#[test]
fn inline_field_length_overflow() {
    let e = parse_bit_tokens(&["x:99999999999"], 32).err().unwrap();
    assert_eq!(e, "bad inline field len: number too large to fit in target type");
}

#[test]
fn field_segments() {
    let s = parse_field_segment("7:5").unwrap();
    assert_eq!((s.pos, s.len, s.signed), (7, 5, false));
    let s = parse_field_segment("31:s1").unwrap();
    assert_eq!((s.pos, s.len, s.signed), (31, 1, true));
    let s = parse_field_segment("+7:5").unwrap();
    assert_eq!((s.pos, s.len, s.signed), (7, 5, false));
    assert_eq!(parse_field_segment("7").err().unwrap(), "bad segment: 7");
    assert_eq!(parse_field_segment("x:5").err().unwrap(), "bad pos: x");
    assert_eq!(parse_field_segment("7:sz").err().unwrap(), "bad len: z");
}

#[test]
fn hex_constants() {
    assert_eq!(format_hex(0x13, 32), "0x00000013");
    assert_eq!(format_hex(0x1, 16), "0x0001");
    assert_eq!(format_hex(0x12345, 16), "0x12345");
}

#[test]
fn camel_case_names() {
    assert_eq!(to_camel("r_shift"), "RShift");
    assert_eq!(to_camel("atom_ld"), "AtomLd");
    assert_eq!(to_camel("__x"), "X");
    assert_eq!(to_camel(""), "");
}

#[test]
fn continuation_lines() {
    assert_eq!(merge_continuations("a \\\n   b\nc"), "a b\nc");
    assert_eq!(merge_continuations("x\\\ny\\\nz"), "x y z");
    assert_eq!(merge_continuations("l1\r\nl2\n"), "l1\nl2");
    assert_eq!(merge_continuations(""), "");
}

#[test]
fn field_lines() {
    let f = parse_field("%imm_i    20:s12").unwrap();
    assert_eq!(f.name, "imm_i");
    assert_eq!(f.segments.len(), 1);
    assert_eq!((f.segments[0].pos, f.segments[0].len, f.segments[0].signed), (20, 12, true));
    assert!(f.func.is_none());
    let f = parse_field("%imm_b 31:s1 7:1 25:6 8:4 !function=ex_shift_1").unwrap();
    assert_eq!(f.segments.len(), 4);
    assert_eq!(f.func.as_deref(), Some("ex_shift_1"));
    assert_eq!(parse_field("%bad 7:5 x:1").err().unwrap(), "bad pos: x");
}

#[test]
fn argset_lines() {
    let a = parse_argset("&r rd rs1 rs2").unwrap();
    assert_eq!(a.name, "r");
    assert_eq!(a.fields, vec!["rd".to_string(), "rs1".to_string(), "rs2".to_string()]);
    assert!(!a.is_extern);
    let a = parse_argset("&empty !extern").unwrap();
    assert_eq!(a.name, "empty");
    assert!(a.fields.is_empty());
    assert!(a.is_extern);
}
