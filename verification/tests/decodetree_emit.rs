use tcg::decodetree::{emit_extract_field, emit_field_expr, is_bit_char, is_bit_token, Field, FieldMapping, FieldSegment};

fn text(v: Vec<u8>) -> String {
    String::from_utf8(v).unwrap()
}

#[test]
fn bit_tokens() {
    assert!(is_bit_char('0') && is_bit_char('1') && is_bit_char('.') && is_bit_char('-'));
    assert!(!is_bit_char('2'));
    assert!(is_bit_token("0110..-1"));
    assert!(!is_bit_token(""));
    assert!(!is_bit_token("01x"));
    assert!(!is_bit_token("0é"));
}

#[test]
fn extract_single_signed() {
    let f = Field {
        name: "imm_i".to_string(),
        segments: vec![FieldSegment { pos: 20, len: 12, signed: true }],
        func: None,
    };
    assert_eq!(
        text(emit_extract_field(&f, 32)),
        "fn extract_imm_i(insn: u32) -> i64 {\n    let val = (insn as i32) >> 20;\n    val as i64\n}\n\n"
    );
}

#[test]
fn extract_single_signed_shifted() {
    let f = Field {
        name: "x".to_string(),
        segments: vec![FieldSegment { pos: 2, len: 6, signed: true }],
        func: None,
    };
    assert_eq!(
        text(emit_extract_field(&f, 16)),
        "fn extract_x(insn: u16) -> i64 {\n    let val = ((insn as i16) << 8) >> 10;\n    val as i64\n}\n\n"
    );
}

#[test]
fn extract_multi_segment() {
    let f = Field {
        name: "imm_s".to_string(),
        segments: vec![
            FieldSegment { pos: 25, len: 7, signed: true },
            FieldSegment { pos: 7, len: 5, signed: false },
        ],
        func: None,
    };
    assert_eq!(
        text(emit_extract_field(&f, 32)),
        "fn extract_imm_s(insn: u32) -> i64 {\n    let mut val: i64 = ((insn as i32) >> 25) as i64;\n    val = (val << 5) | ((insn >> 7) & 0x1f) as i64;\n    val\n}\n\n"
    );
}

#[test]
fn extract_with_transform() {
    let f = Field {
        name: "sh".to_string(),
        segments: vec![FieldSegment { pos: 7, len: 5, signed: false }],
        func: Some("ex_shift_1".to_string()),
    };
    assert_eq!(
        text(emit_extract_field(&f, 32)),
        "fn extract_sh(insn: u32) -> i64 {\n    let val = (insn >> 7) & 0x1f;\n    (val as i64) << 1\n}\n\n"
    );
    let g = Field { func: Some("mystery".to_string()), ..f };
    assert_eq!(
        text(emit_extract_field(&g, 32)),
        "fn extract_sh(insn: u32) -> i64 {\n    let val = (insn >> 7) & 0x1f;\n    // unknown func: mystery\n    val as i64\n}\n\n"
    );
}

#[test]
fn field_expressions() {
    assert_eq!(
        text(emit_field_expr(&FieldMapping::Inline { pos: 7, len: 5, signed: false }, 32)),
        "((insn >> 7) & 0x1f) as i64"
    );
    assert_eq!(
        text(emit_field_expr(&FieldMapping::Inline { pos: 20, len: 12, signed: true }, 32)),
        "(((insn as i32) << 0) >> 20) as i64"
    );
    assert_eq!(text(emit_field_expr(&FieldMapping::Const(-3), 32)), "-3_i64");
    assert_eq!(text(emit_field_expr(&FieldMapping::Const(7), 32)), "7_i64");
    assert_eq!(text(emit_field_expr(&FieldMapping::FieldRef("rd".to_string()), 32)), "extract_rd(insn)");
}
