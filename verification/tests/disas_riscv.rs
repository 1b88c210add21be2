use tcg::disas::riscv::print_insn_riscv64;

fn dis32(pc: u64, insn: u32) -> (String, usize) {
    let (text, len) = print_insn_riscv64(pc, &insn.to_le_bytes());
    (String::from_utf8(text).unwrap(), len)
}

fn dis16(pc: u64, h: u16) -> (String, usize) {
    let (text, len) = print_insn_riscv64(pc, &h.to_le_bytes());
    (String::from_utf8(text).unwrap(), len)
}

#[test]
fn disas_integer_immediates() {
    assert_eq!(dis32(0, 0x00150513), ("addi a0, a0, 1".to_string(), 4));
    assert_eq!(dis32(0, 0x02a00513).0, "li a0, 42");
    assert_eq!(dis32(0, 0xfff00513).0, "li a0, -1");
    assert_eq!(dis32(0, 0x00050593).0, "mv a1, a0");
    assert_eq!(dis32(0, 0xfff5c513).0, "not a0, a1");
}

#[test]
fn disas_upper_immediates() {
    assert_eq!(dis32(0, 0x12345537).0, "lui a0, 0x12345");
    assert_eq!(dis32(0, 0xfffff537).0, "lui a0, 0xffffffff");
    assert_eq!(dis32(0x1000, 0x00001517).0, "auipc a0, 0x1  # 0x2000");
}

#[test]
fn disas_jumps_and_branches() {
    assert_eq!(dis32(0, 0x00008067).0, "jr ra");
    assert_eq!(dis32(0x1000, 0x008000ef).0, "jal ra, 0x1008");
    assert_eq!(dis32(0x1000, 0xffdff06f).0, "j 0xffc");
    assert_eq!(dis32(0x100, 0x00b50863).0, "beq a0, a1, 0x110");
    assert_eq!(dis32(0x100, 0x00050863).0, "beqz a0, 0x110");
}

#[test]
fn disas_loads_stores() {
    assert_eq!(dis32(0, 0x00813503).0, "ld a0, 8(sp)");
    assert_eq!(dis32(0, 0xfe113c23).0, "sd ra, -8(sp)");
}

#[test]
fn disas_register_ops() {
    assert_eq!(dis32(0, 0x02c58533).0, "mul a0, a1, a2");
    assert_eq!(dis32(0, 0x40b50533).0, "sub a0, a0, a1");
    assert_eq!(dis32(0, 0x04000033).0, "op f3=0 f7=0x2");
}

#[test]
fn disas_atomics() {
    assert_eq!(dis32(0, 0x1005a52f).0, "lr.w a0, (a1)");
    assert_eq!(dis32(0, 0x06c5b52f).0, "amoadd.d.aqrl a0, a2, (a1)");
}

#[test]
fn disas_system_and_fence() {
    assert_eq!(dis32(0, 0x00000073).0, "ecall");
    assert_eq!(dis32(0, 0x00302573).0, "csrrs a0, 0x3, zero");
    assert_eq!(dis32(0, 0x0012d073).0, "csrrwi zero, 0x1, 5");
    assert_eq!(dis32(0, 0x0ff0000f).0, "fence");
}

#[test]
fn disas_unknown_word_is_padded() {
    assert_eq!(dis32(0, 0xffffffff).0, ".word 0xffffffff");
    assert_eq!(dis32(0, 0x0000007f).0, ".word 0x0000007f");
}

#[test]
fn disas_compressed() {
    assert_eq!(dis16(0, 0x0001), ("c.nop".to_string(), 2));
    assert_eq!(dis16(0, 0x4515).0, "c.li a0, 5");
    assert_eq!(dis16(0, 0x557d).0, "c.li a0, -1");
    assert_eq!(dis16(0, 0x757d).0, "c.lui a0, 0xffffffffffffffff");
    assert_eq!(dis16(0, 0x657d).0, "c.lui a0, 0x1f");
    assert_eq!(dis16(0, 0x852e).0, "c.mv a0, a1");
    assert_eq!(dis16(0, 0x8082).0, "c.jr ra");
    assert_eq!(dis16(0, 0x9002).0, "c.ebreak");
    assert_eq!(dis16(0x1000, 0xa001).0, "c.j 0x1000");
    assert_eq!(dis16(0, 0x0000).0, ".half 0x0000");
}

#[test]
fn disas_short_input() {
    let (t, n) = print_insn_riscv64(0, &[0x13]);
    assert_eq!((t, n), (b".byte ???".to_vec(), 0));
    let (t, n) = print_insn_riscv64(0, &[0x13, 0x05, 0x15]);
    assert_eq!((t, n), (b".byte ???".to_vec(), 0));
}
